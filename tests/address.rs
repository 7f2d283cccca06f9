use untyped_pointer::ptr;

#[test]
fn invalid_gives_its_address_back() {
  for a in [0usize, 1, 42, 0x1000, usize::MAX / 2, usize::MAX] {
    assert_eq!(ptr::invalid(a).addr(), a);
  }
}

#[test]
fn null_and_nonzero() {
  assert!(ptr::null().is_null());
  assert_eq!(ptr::null().addr(), 0);
  assert!(ptr::null() == ptr::invalid(0));
  assert!(!ptr::invalid(1).is_null());
  assert!(!ptr::invalid(usize::MAX).is_null());
}

#[test]
fn add_and_sub_move_by_bytes() {
  assert_eq!(ptr::invalid(100).add(28).addr(), 128);
  assert_eq!(ptr::invalid(100).sub(28).addr(), 72);
}

#[test]
fn add_and_sub_wrap() {
  assert_eq!(ptr::invalid(usize::MAX).add(1).addr(), 0);
  assert_eq!(ptr::invalid(usize::MAX - 1).add(5).addr(), 3);
  assert_eq!(ptr::invalid(0).sub(1).addr(), usize::MAX);
  assert_eq!(ptr::invalid(2).sub(5).addr(), usize::MAX - 2);
}

#[test]
fn add_then_sub_round_trips() {
  for a in [0usize, 7, 4096, usize::MAX - 3, usize::MAX] {
    for o in [0usize, 1, 9, usize::MAX / 3, usize::MAX] {
      let p = ptr::invalid(a);
      assert!(p.add(o).sub(o) == p);
    }
  }
}

#[test]
fn diff_is_wrapping() {
  assert_eq!(ptr::invalid(10).diff(ptr::invalid(3)), 7);
  assert_eq!(ptr::invalid(3).diff(ptr::invalid(10)), usize::MAX - 6);
  assert_eq!(ptr::invalid(3).diff(ptr::invalid(10)), 3usize.wrapping_sub(10));
  assert_eq!(ptr::invalid(5).diff(ptr::invalid(5)), 0);
}

#[test]
fn mask_keeps_the_bits_of_the_mask() {
  assert_eq!(ptr::invalid(0x1237).mask(!0xf).addr(), 0x1230);
  assert_eq!(ptr::invalid(0x1237).mask(0xf).addr(), 0x7);
  assert_eq!(ptr::invalid(0x1237).mask(usize::MAX).addr(), 0x1237);
  assert_eq!(ptr::invalid(0x1237).mask(0).addr(), 0);
  let a: usize = 0xdead_beef;
  let m: usize = 0x00ff_ff00;
  assert_eq!(ptr::invalid(a).mask(m).addr(), a & m);
}

#[test]
fn operators_match_methods() {
  let p = ptr::invalid(0x100);
  let q = ptr::invalid(0x40);
  assert!(p + 8 == p.add(8));
  assert!(p - 8 == p.sub(8));
  assert_eq!(p - q, p.diff(q));
  assert_eq!(q - p, q.diff(p));
  assert!((p + 0x37) & !0xf == ptr::invalid(0x130));
  let mut r = p;
  r += 0x21;
  assert_eq!(r.addr(), 0x121);
  r -= 0x1;
  assert_eq!(r.addr(), 0x120);
  r &= !0xff;
  assert_eq!(r.addr(), 0x100);
  let mut w = ptr::invalid(usize::MAX);
  w += 2;
  assert_eq!(w.addr(), 1);
}

#[test]
fn strided_arithmetic_counts_elements() {
  let p = ptr::invalid(100);
  assert_eq!(p.strided_add::<u32>(3).addr(), 112);
  assert_eq!(p.strided_sub::<u64>(2).addr(), 84);
  assert_eq!(p.strided_add::<()>(1000).addr(), 100);
  assert_eq!(ptr::invalid(112).strided_diff::<u32>(p), 3);
  assert_eq!(ptr::invalid(115).strided_diff::<u32>(p), 3);
  assert_eq!(ptr::invalid(124).strided_diff::<[u8; 12]>(p), 2);
  assert_eq!(ptr::invalid(0).strided_sub::<u16>(1).addr(), usize::MAX - 1);
}

#[test]
fn order_is_address_order() {
  let a = ptr::invalid(1);
  let b = ptr::invalid(2);
  assert!(a < b);
  assert!(b > a);
  assert!(a <= a);
  assert!(a != b);
  assert!(a == ptr::invalid(1));
  assert_eq!(a.cmp(&b), core::cmp::Ordering::Less);
  assert_eq!(a.partial_cmp(&a), Some(core::cmp::Ordering::Equal));
  assert!(ptr::invalid(usize::MAX) > ptr::null());
}

#[test]
fn from_ref_takes_the_address() {
  let x: u64 = 7;
  let p = ptr::from_ref(&x);
  assert!(!p.is_null());
  assert_eq!(p.addr(), core::ptr::from_ref(&x).addr());
  assert!(ptr::from_ref(&x) == p);
}

#[test]
fn from_ref_of_elements_steps_by_their_size() {
  let a: [u32; 4] = [1, 2, 3, 4];
  let first = ptr::from_ref(&a[0]);
  let third = ptr::from_ref(&a[2]);
  assert_eq!(third.diff(first), 8);
  assert_eq!(third.strided_diff::<u32>(first), 2);
  assert!(first.strided_add::<u32>(2) == third);
  assert!(ptr::from_ref(&a[..]) == first);
}

#[test]
fn from_mut_ref_takes_the_address_and_leaves_the_value() {
  let mut v: [u8; 3] = [9, 8, 7];
  let shared = ptr::from_ref(&v);
  let p = ptr::from_mut_ref(&mut v);
  assert!(p == shared);
  assert!(!p.is_null());
  assert_eq!(v, [9, 8, 7]);
  let q = ptr::from_mut_ref(&mut v[1..]);
  assert_eq!(q.diff(p), 1);
}

#[test]
fn debug_text_is_zero_padded_hex() {
  assert_eq!(ptr::null().to_debug_string(), "0x0000000000000000");
  assert_eq!(ptr::invalid(usize::MAX).to_debug_string(), "0xffffffffffffffff");
  assert_eq!(ptr::invalid(0xdead_beef).to_debug_string(), "0x00000000deadbeef");
  assert_eq!(ptr::invalid(0x0123_4567_89ab_cdef).to_debug_string(), "0x0123456789abcdef");
}

#[test]
fn as_non_null_is_none_only_for_null() {
  assert!(ptr::null().as_non_null().is_none());
  let p = ptr::invalid(8);
  assert!(p.as_non_null() == Some(p));
  let q = ptr::invalid(usize::MAX);
  assert!(q.as_non_null() == Some(q));
}
