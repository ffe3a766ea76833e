use vstd::prelude::*;

pub mod laws;
pub mod ops;
pub mod rect2;
pub mod vec2;

pub use rect2::Rect2;
pub use vec2::Vec2;

verus! {

/// A scalar type with a zero value.
pub trait ConstZero: Sized {
    const ZERO: Self;
}

/// A scalar type with a one value.
pub trait ConstOne: Sized {
    const ONE: Self;
}

impl ConstZero for u8 {
    const ZERO: Self = 0;
}

impl ConstOne for u8 {
    const ONE: Self = 1;
}

impl ConstZero for u16 {
    const ZERO: Self = 0;
}

impl ConstOne for u16 {
    const ONE: Self = 1;
}

impl ConstZero for u32 {
    const ZERO: Self = 0;
}

impl ConstOne for u32 {
    const ONE: Self = 1;
}

impl ConstZero for u64 {
    const ZERO: Self = 0;
}

impl ConstOne for u64 {
    const ONE: Self = 1;
}

impl ConstZero for usize {
    const ZERO: Self = 0;
}

impl ConstOne for usize {
    const ONE: Self = 1;
}

impl ConstZero for i8 {
    const ZERO: Self = 0;
}

impl ConstOne for i8 {
    const ONE: Self = 1;
}

impl ConstZero for i16 {
    const ZERO: Self = 0;
}

impl ConstOne for i16 {
    const ONE: Self = 1;
}

impl ConstZero for i32 {
    const ZERO: Self = 0;
}

impl ConstOne for i32 {
    const ONE: Self = 1;
}

impl ConstZero for i64 {
    const ZERO: Self = 0;
}

impl ConstOne for i64 {
    const ONE: Self = 1;
}

impl ConstZero for isize {
    const ZERO: Self = 0;
}

impl ConstOne for isize {
    const ONE: Self = 1;
}

} // verus!
