use std::collections::hash_map::DefaultHasher;
use std::hash::{Hash, Hasher};
use std::ops::{
    AddAssign, BitAndAssign, BitOrAssign, BitXorAssign, DivAssign, MulAssign, RemAssign,
    ShlAssign, ShrAssign, SubAssign,
};
use vecmath::{ConstOne, ConstZero, Vec2};

fn hash_of<T: Hash>(v: &T) -> u64 {
    let mut h = DefaultHasher::new();
    v.hash(&mut h);
    h.finish()
}

#[test]
fn new_sets_components() {
    let v = Vec2::new(3i32, -4);
    assert_eq!(v.x, 3);
    assert_eq!(v.y, -4);
}

#[test]
fn splat_repeats_value() {
    assert_eq!(Vec2::splat(7u16), Vec2::new(7, 7));
}

#[test]
fn zero_and_one_constants() {
    assert_eq!(Vec2::<i64>::zero(), Vec2::new(0, 0));
    assert_eq!(Vec2::<usize>::one(), Vec2::new(1, 1));
    assert_eq!(u8::ZERO, 0);
    assert_eq!(isize::ONE, 1);
}

#[test]
fn concrete_sum() {
    assert_eq!(Vec2::new(2, 3) + Vec2::new(10, 20), Vec2::new(12, 23));
}

#[test]
fn concrete_scalar_division() {
    assert_eq!(Vec2::new(4, 8) / 2, Vec2::new(2, 4));
}

#[test]
fn componentwise_binary_operators() {
    let a = Vec2::new(12i32, -7);
    let b = Vec2::new(5i32, 3);
    assert_eq!(a - b, Vec2::new(7, -10));
    assert_eq!(a * b, Vec2::new(60, -21));
    assert_eq!(a / b, Vec2::new(2, -2));
    assert_eq!(a % b, Vec2::new(2, -1));
    assert_eq!(a & b, Vec2::new(12 & 5, -7 & 3));
    assert_eq!(a | b, Vec2::new(12 | 5, -7 | 3));
    assert_eq!(a ^ b, Vec2::new(12 ^ 5, -7 ^ 3));
    assert_eq!(Vec2::new(1u8, 3) << Vec2::new(4u8, 1), Vec2::new(16, 6));
    assert_eq!(Vec2::new(64u32, 7) >> Vec2::new(3u32, 1), Vec2::new(8, 3));
}

#[test]
fn unary_operators() {
    assert_eq!(-Vec2::new(5i16, -9), Vec2::new(-5, 9));
    assert_eq!(!Vec2::new(0u8, 0xf0), Vec2::new(0xff, 0x0f));
    assert_eq!(!Vec2::new(0i32, -1), Vec2::new(-1, 0));
}

#[test]
fn addition_commutes() {
    let a = Vec2::new(9u64, 40);
    let b = Vec2::new(1000u64, 2);
    assert_eq!(a + b, b + a);
    assert_eq!(a * b, b * a);
    assert_eq!(a ^ b, b ^ a);
}

#[test]
fn addition_associates() {
    let a = Vec2::new(1i32, -2);
    let b = Vec2::new(30i32, 40);
    let c = Vec2::new(-500i32, 600);
    assert_eq!((a + b) + c, a + (b + c));
    assert_eq!((a * b) * c, a * (b * c));
    assert_eq!((a & b) & c, a & (b & c));
    assert_eq!((a | b) | c, a | (b | c));
}

#[test]
fn identities() {
    let v = Vec2::new(17i32, -33);
    assert_eq!(v + Vec2::zero(), v);
    assert_eq!(v * Vec2::one(), v);
}

#[test]
fn tuple_round_trips() {
    let v: Vec2<u8> = Vec2::from((4, 9));
    assert_eq!(v, Vec2::new(4, 9));
    let t: (u8, u8) = v.into();
    assert_eq!(t, (4, 9));
    let w = Vec2::new(-1i64, 2);
    let back: Vec2<i64> = Vec2::from(<(i64, i64)>::from(w));
    assert_eq!(back, w);
}

#[test]
fn compound_matches_binary() {
    let a = Vec2::new(90u32, 45);
    let b = Vec2::new(7u32, 4);
    let mut c = a;
    c += b;
    assert_eq!(c, a + b);
    let mut c = a;
    c -= b;
    assert_eq!(c, a - b);
    let mut c = a;
    c *= b;
    assert_eq!(c, a * b);
    let mut c = a;
    c /= b;
    assert_eq!(c, a / b);
    let mut c = a;
    c %= b;
    assert_eq!(c, a % b);
    let mut c = a;
    c &= b;
    assert_eq!(c, a & b);
    let mut c = a;
    c |= b;
    assert_eq!(c, a | b);
    let mut c = a;
    c ^= b;
    assert_eq!(c, a ^ b);
    let mut c = a;
    c <<= b;
    assert_eq!(c, a << b);
    let mut c = a;
    c >>= b;
    assert_eq!(c, a >> b);
}

#[test]
fn compound_methods_match_binary() {
    let a = Vec2::new(-20i8, 30);
    let b = Vec2::new(3i8, -4);
    let mut c = a;
    c.add_assign(b);
    assert_eq!(c, Vec2::new(-17, 26));
    let mut c = a;
    c.sub_assign(b);
    assert_eq!(c, Vec2::new(-23, 34));
    let mut c = a;
    c.mul_assign(b);
    assert_eq!(c, Vec2::new(-60, -120));
    let mut c = a;
    c.div_assign(b);
    assert_eq!(c, Vec2::new(-6, -7));
    let mut c = a;
    c.rem_assign(b);
    assert_eq!(c, Vec2::new(-2, 2));
    let mut c = a;
    c.bitand_assign(b);
    assert_eq!(c, a & b);
    let mut c = a;
    c.bitor_assign(b);
    assert_eq!(c, a | b);
    let mut c = a;
    c.bitxor_assign(b);
    assert_eq!(c, a ^ b);
    let mut c = Vec2::new(1i8, 2);
    c.shl_assign(Vec2::new(2, 3));
    assert_eq!(c, Vec2::new(4, 16));
    let mut c = Vec2::new(-64i8, 64);
    c.shr_assign(Vec2::new(2, 3));
    assert_eq!(c, Vec2::new(-16, 8));
}

#[test]
fn scalar_broadcast() {
    let v = Vec2::new(6i32, -15);
    assert_eq!(v * 3, Vec2::new(18, -45));
    assert_eq!(v / 3, Vec2::new(2, -5));
    let mut c = v;
    c *= -2;
    assert_eq!(c, v * -2);
    let mut c = v;
    c /= 4;
    assert_eq!(c, Vec2::new(1, -3));
    assert_eq!(v * 5, v * Vec2::splat(5));
}

#[test]
fn map_sees_both_components() {
    let v = Vec2::new(3u32, 5u32).map(|x, y| (y, x + y));
    assert_eq!(v, Vec2::new(5, 8));
    let w: Vec2<i64> = Vec2::new(2u8, 7u8).map(|x, y| (x as i64 - y as i64, x as i64 * y as i64));
    assert_eq!(w, Vec2::new(-5, 14));
}

#[test]
fn map_all_applies_x_first() {
    let mut log: Vec<u8> = Vec::new();
    let mut counter = 0u32;
    let v = Vec2::new(10u8, 20u8).map_all(|c| {
        log.push(c);
        counter += 1;
        (c as u32) * 100 + counter
    });
    assert_eq!(log, vec![10, 20]);
    assert_eq!(v, Vec2::new(1001, 2002));
}

#[test]
fn ordering_is_lexicographic() {
    let a = Vec2::new(1i32, 9);
    let b = Vec2::new(2i32, 0);
    let c = Vec2::new(1i32, 10);
    assert!(a < b);
    assert!(a < c);
    assert!(b > c);
    assert!(a <= a);
    assert_eq!(a < b, (a.x, a.y) < (b.x, b.y));
    assert_eq!(b < c, (b.x, b.y) < (c.x, c.y));
    assert_eq!(a.cmp(&c), (a.x, a.y).cmp(&(c.x, c.y)));
    assert_eq!(a.partial_cmp(&a), Some(std::cmp::Ordering::Equal));
    let mut vs = vec![b, c, a];
    vs.sort();
    assert_eq!(vs, vec![a, c, b]);
}

#[test]
fn equality_and_hash_agree() {
    let a = Vec2::new(3u64, 4);
    let b = Vec2::from((3u64, 4u64));
    assert_eq!(a, b);
    assert_eq!(hash_of(&a), hash_of(&b));
    assert_ne!(a, Vec2::new(4, 3));
}
