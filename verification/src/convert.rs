//! The arity dispatch table.
//!
//! A fixed-length group of values arrives with its target shape unresolved:
//! the call site may expect a homogeneous fixed-size array or a heterogeneous
//! tuple, and only the host compiler knows which.  The emitted text therefore
//! routes every nonzero-arity group through `convert_tuple_N`, whose output
//! type picks, by static typing alone, one of the two [`FromTuple`]
//! implementations of that arity: positional unpacking into an array, or the
//! identity on the tuple the group already is.  The table covers arities one
//! through the configured maximum of thirty-two; arity zero needs no
//! dispatch, and higher arities are out of contract and surface only when
//! the generated text is compiled.

use vstd::prelude::*;

verus! {

/// The capability of being built from an ordered fixed-length group.
pub trait FromTuple<T>: Sized {
    /// The value this target shape builds from the group.
    spec fn built_from(tuple: T) -> Self;

    /// Builds `Self` from the group.
    fn from_tuple(tuple: T) -> (r: Self)
        ensures
            r == Self::built_from(tuple),
    ;
}

impl<T> FromTuple<(T,)> for [T; 1] {
    open spec fn built_from(tuple: (T,)) -> Self {
        [tuple.0]
    }

    fn from_tuple(tuple: (T,)) -> (r: Self) {
        [tuple.0]
    }
}

impl<T0> FromTuple<(T0,)> for (T0,) {
    open spec fn built_from(tuple: (T0,)) -> Self {
        tuple
    }

    fn from_tuple(tuple: (T0,)) -> (r: Self) {
        tuple
    }
}

/// Resolves a group of 1 to whatever shape the call site expects.
pub fn convert_tuple_1<T0, Out: FromTuple<(T0,)>>(tuple: (T0,)) -> (r: Out)
    ensures
        r == Out::built_from(tuple),
{
    Out::from_tuple(tuple)
}

impl<T> FromTuple<(T, T,)> for [T; 2] {
    open spec fn built_from(tuple: (T, T,)) -> Self {
        [tuple.0, tuple.1]
    }

    fn from_tuple(tuple: (T, T,)) -> (r: Self) {
        [tuple.0, tuple.1]
    }
}

impl<T0, T1> FromTuple<(T0, T1,)> for (T0, T1,) {
    open spec fn built_from(tuple: (T0, T1,)) -> Self {
        tuple
    }

    fn from_tuple(tuple: (T0, T1,)) -> (r: Self) {
        tuple
    }
}

/// Resolves a group of 2 to whatever shape the call site expects.
pub fn convert_tuple_2<T0, T1, Out: FromTuple<(T0, T1,)>>(tuple: (T0, T1,)) -> (r: Out)
    ensures
        r == Out::built_from(tuple),
{
    Out::from_tuple(tuple)
}

impl<T> FromTuple<(T, T, T,)> for [T; 3] {
    open spec fn built_from(tuple: (T, T, T,)) -> Self {
        [tuple.0, tuple.1, tuple.2]
    }

    fn from_tuple(tuple: (T, T, T,)) -> (r: Self) {
        [tuple.0, tuple.1, tuple.2]
    }
}

impl<T0, T1, T2> FromTuple<(T0, T1, T2,)> for (T0, T1, T2,) {
    open spec fn built_from(tuple: (T0, T1, T2,)) -> Self {
        tuple
    }

    fn from_tuple(tuple: (T0, T1, T2,)) -> (r: Self) {
        tuple
    }
}

/// Resolves a group of 3 to whatever shape the call site expects.
pub fn convert_tuple_3<T0, T1, T2, Out: FromTuple<(T0, T1, T2,)>>(tuple: (T0, T1, T2,)) -> (r: Out)
    ensures
        r == Out::built_from(tuple),
{
    Out::from_tuple(tuple)
}

impl<T> FromTuple<(T, T, T, T,)> for [T; 4] {
    open spec fn built_from(tuple: (T, T, T, T,)) -> Self {
        [tuple.0, tuple.1, tuple.2, tuple.3]
    }

    fn from_tuple(tuple: (T, T, T, T,)) -> (r: Self) {
        [tuple.0, tuple.1, tuple.2, tuple.3]
    }
}

impl<T0, T1, T2, T3> FromTuple<(T0, T1, T2, T3,)> for (T0, T1, T2, T3,) {
    open spec fn built_from(tuple: (T0, T1, T2, T3,)) -> Self {
        tuple
    }

    fn from_tuple(tuple: (T0, T1, T2, T3,)) -> (r: Self) {
        tuple
    }
}

/// Resolves a group of 4 to whatever shape the call site expects.
pub fn convert_tuple_4<T0, T1, T2, T3, Out: FromTuple<(T0, T1, T2, T3,)>>(tuple: (T0, T1, T2, T3,)) -> (r: Out)
    ensures
        r == Out::built_from(tuple),
{
    Out::from_tuple(tuple)
}

impl<T> FromTuple<(T, T, T, T, T,)> for [T; 5] {
    open spec fn built_from(tuple: (T, T, T, T, T,)) -> Self {
        [tuple.0, tuple.1, tuple.2, tuple.3, tuple.4]
    }

    fn from_tuple(tuple: (T, T, T, T, T,)) -> (r: Self) {
        [tuple.0, tuple.1, tuple.2, tuple.3, tuple.4]
    }
}

impl<T0, T1, T2, T3, T4> FromTuple<(T0, T1, T2, T3, T4,)> for (T0, T1, T2, T3, T4,) {
    open spec fn built_from(tuple: (T0, T1, T2, T3, T4,)) -> Self {
        tuple
    }

    fn from_tuple(tuple: (T0, T1, T2, T3, T4,)) -> (r: Self) {
        tuple
    }
}

/// Resolves a group of 5 to whatever shape the call site expects.
pub fn convert_tuple_5<T0, T1, T2, T3, T4, Out: FromTuple<(T0, T1, T2, T3, T4,)>>(tuple: (T0, T1, T2, T3, T4,)) -> (r: Out)
    ensures
        r == Out::built_from(tuple),
{
    Out::from_tuple(tuple)
}

impl<T> FromTuple<(T, T, T, T, T, T,)> for [T; 6] {
    open spec fn built_from(tuple: (T, T, T, T, T, T,)) -> Self {
        [tuple.0, tuple.1, tuple.2, tuple.3, tuple.4, tuple.5]
    }

    fn from_tuple(tuple: (T, T, T, T, T, T,)) -> (r: Self) {
        [tuple.0, tuple.1, tuple.2, tuple.3, tuple.4, tuple.5]
    }
}

impl<T0, T1, T2, T3, T4, T5> FromTuple<(T0, T1, T2, T3, T4, T5,)> for (T0, T1, T2, T3, T4, T5,) {
    open spec fn built_from(tuple: (T0, T1, T2, T3, T4, T5,)) -> Self {
        tuple
    }

    fn from_tuple(tuple: (T0, T1, T2, T3, T4, T5,)) -> (r: Self) {
        tuple
    }
}

/// Resolves a group of 6 to whatever shape the call site expects.
pub fn convert_tuple_6<T0, T1, T2, T3, T4, T5, Out: FromTuple<(T0, T1, T2, T3, T4, T5,)>>(tuple: (T0, T1, T2, T3, T4, T5,)) -> (r: Out)
    ensures
        r == Out::built_from(tuple),
{
    Out::from_tuple(tuple)
}

impl<T> FromTuple<(T, T, T, T, T, T, T,)> for [T; 7] {
    open spec fn built_from(tuple: (T, T, T, T, T, T, T,)) -> Self {
        [tuple.0, tuple.1, tuple.2, tuple.3, tuple.4, tuple.5, tuple.6]
    }

    fn from_tuple(tuple: (T, T, T, T, T, T, T,)) -> (r: Self) {
        [tuple.0, tuple.1, tuple.2, tuple.3, tuple.4, tuple.5, tuple.6]
    }
}

impl<T0, T1, T2, T3, T4, T5, T6> FromTuple<(T0, T1, T2, T3, T4, T5, T6,)> for (T0, T1, T2, T3, T4, T5, T6,) {
    open spec fn built_from(tuple: (T0, T1, T2, T3, T4, T5, T6,)) -> Self {
        tuple
    }

    fn from_tuple(tuple: (T0, T1, T2, T3, T4, T5, T6,)) -> (r: Self) {
        tuple
    }
}

/// Resolves a group of 7 to whatever shape the call site expects.
pub fn convert_tuple_7<T0, T1, T2, T3, T4, T5, T6, Out: FromTuple<(T0, T1, T2, T3, T4, T5, T6,)>>(tuple: (T0, T1, T2, T3, T4, T5, T6,)) -> (r: Out)
    ensures
        r == Out::built_from(tuple),
{
    Out::from_tuple(tuple)
}

impl<T> FromTuple<(T, T, T, T, T, T, T, T,)> for [T; 8] {
    open spec fn built_from(tuple: (T, T, T, T, T, T, T, T,)) -> Self {
        [tuple.0, tuple.1, tuple.2, tuple.3, tuple.4, tuple.5, tuple.6, tuple.7]
    }

    fn from_tuple(tuple: (T, T, T, T, T, T, T, T,)) -> (r: Self) {
        [tuple.0, tuple.1, tuple.2, tuple.3, tuple.4, tuple.5, tuple.6, tuple.7]
    }
}

impl<T0, T1, T2, T3, T4, T5, T6, T7> FromTuple<(T0, T1, T2, T3, T4, T5, T6, T7,)> for (T0, T1, T2, T3, T4, T5, T6, T7,) {
    open spec fn built_from(tuple: (T0, T1, T2, T3, T4, T5, T6, T7,)) -> Self {
        tuple
    }

    fn from_tuple(tuple: (T0, T1, T2, T3, T4, T5, T6, T7,)) -> (r: Self) {
        tuple
    }
}

/// Resolves a group of 8 to whatever shape the call site expects.
pub fn convert_tuple_8<T0, T1, T2, T3, T4, T5, T6, T7, Out: FromTuple<(T0, T1, T2, T3, T4, T5, T6, T7,)>>(tuple: (T0, T1, T2, T3, T4, T5, T6, T7,)) -> (r: Out)
    ensures
        r == Out::built_from(tuple),
{
    Out::from_tuple(tuple)
}

impl<T> FromTuple<(T, T, T, T, T, T, T, T, T,)> for [T; 9] {
    open spec fn built_from(tuple: (T, T, T, T, T, T, T, T, T,)) -> Self {
        [tuple.0, tuple.1, tuple.2, tuple.3, tuple.4, tuple.5, tuple.6, tuple.7, tuple.8]
    }

    fn from_tuple(tuple: (T, T, T, T, T, T, T, T, T,)) -> (r: Self) {
        [tuple.0, tuple.1, tuple.2, tuple.3, tuple.4, tuple.5, tuple.6, tuple.7, tuple.8]
    }
}

impl<T0, T1, T2, T3, T4, T5, T6, T7, T8> FromTuple<(T0, T1, T2, T3, T4, T5, T6, T7, T8,)> for (T0, T1, T2, T3, T4, T5, T6, T7, T8,) {
    open spec fn built_from(tuple: (T0, T1, T2, T3, T4, T5, T6, T7, T8,)) -> Self {
        tuple
    }

    fn from_tuple(tuple: (T0, T1, T2, T3, T4, T5, T6, T7, T8,)) -> (r: Self) {
        tuple
    }
}

/// Resolves a group of 9 to whatever shape the call site expects.
pub fn convert_tuple_9<T0, T1, T2, T3, T4, T5, T6, T7, T8, Out: FromTuple<(T0, T1, T2, T3, T4, T5, T6, T7, T8,)>>(tuple: (T0, T1, T2, T3, T4, T5, T6, T7, T8,)) -> (r: Out)
    ensures
        r == Out::built_from(tuple),
{
    Out::from_tuple(tuple)
}

impl<T> FromTuple<(T, T, T, T, T, T, T, T, T, T,)> for [T; 10] {
    open spec fn built_from(tuple: (T, T, T, T, T, T, T, T, T, T,)) -> Self {
        [tuple.0, tuple.1, tuple.2, tuple.3, tuple.4, tuple.5, tuple.6, tuple.7, tuple.8, tuple.9]
    }

    fn from_tuple(tuple: (T, T, T, T, T, T, T, T, T, T,)) -> (r: Self) {
        [tuple.0, tuple.1, tuple.2, tuple.3, tuple.4, tuple.5, tuple.6, tuple.7, tuple.8, tuple.9]
    }
}

impl<T0, T1, T2, T3, T4, T5, T6, T7, T8, T9> FromTuple<(T0, T1, T2, T3, T4, T5, T6, T7, T8, T9,)> for (T0, T1, T2, T3, T4, T5, T6, T7, T8, T9,) {
    open spec fn built_from(tuple: (T0, T1, T2, T3, T4, T5, T6, T7, T8, T9,)) -> Self {
        tuple
    }

    fn from_tuple(tuple: (T0, T1, T2, T3, T4, T5, T6, T7, T8, T9,)) -> (r: Self) {
        tuple
    }
}

/// Resolves a group of 10 to whatever shape the call site expects.
pub fn convert_tuple_10<T0, T1, T2, T3, T4, T5, T6, T7, T8, T9, Out: FromTuple<(T0, T1, T2, T3, T4, T5, T6, T7, T8, T9,)>>(tuple: (T0, T1, T2, T3, T4, T5, T6, T7, T8, T9,)) -> (r: Out)
    ensures
        r == Out::built_from(tuple),
{
    Out::from_tuple(tuple)
}

impl<T> FromTuple<(T, T, T, T, T, T, T, T, T, T, T,)> for [T; 11] {
    open spec fn built_from(tuple: (T, T, T, T, T, T, T, T, T, T, T,)) -> Self {
        [tuple.0, tuple.1, tuple.2, tuple.3, tuple.4, tuple.5, tuple.6, tuple.7, tuple.8, tuple.9, tuple.10]
    }

    fn from_tuple(tuple: (T, T, T, T, T, T, T, T, T, T, T,)) -> (r: Self) {
        [tuple.0, tuple.1, tuple.2, tuple.3, tuple.4, tuple.5, tuple.6, tuple.7, tuple.8, tuple.9, tuple.10]
    }
}

impl<T0, T1, T2, T3, T4, T5, T6, T7, T8, T9, T10> FromTuple<(T0, T1, T2, T3, T4, T5, T6, T7, T8, T9, T10,)> for (T0, T1, T2, T3, T4, T5, T6, T7, T8, T9, T10,) {
    open spec fn built_from(tuple: (T0, T1, T2, T3, T4, T5, T6, T7, T8, T9, T10,)) -> Self {
        tuple
    }

    fn from_tuple(tuple: (T0, T1, T2, T3, T4, T5, T6, T7, T8, T9, T10,)) -> (r: Self) {
        tuple
    }
}

/// Resolves a group of 11 to whatever shape the call site expects.
pub fn convert_tuple_11<T0, T1, T2, T3, T4, T5, T6, T7, T8, T9, T10, Out: FromTuple<(T0, T1, T2, T3, T4, T5, T6, T7, T8, T9, T10,)>>(tuple: (T0, T1, T2, T3, T4, T5, T6, T7, T8, T9, T10,)) -> (r: Out)
    ensures
        r == Out::built_from(tuple),
{
    Out::from_tuple(tuple)
}

impl<T> FromTuple<(T, T, T, T, T, T, T, T, T, T, T, T,)> for [T; 12] {
    open spec fn built_from(tuple: (T, T, T, T, T, T, T, T, T, T, T, T,)) -> Self {
        [tuple.0, tuple.1, tuple.2, tuple.3, tuple.4, tuple.5, tuple.6, tuple.7, tuple.8, tuple.9, tuple.10, tuple.11]
    }

    fn from_tuple(tuple: (T, T, T, T, T, T, T, T, T, T, T, T,)) -> (r: Self) {
        [tuple.0, tuple.1, tuple.2, tuple.3, tuple.4, tuple.5, tuple.6, tuple.7, tuple.8, tuple.9, tuple.10, tuple.11]
    }
}

impl<T0, T1, T2, T3, T4, T5, T6, T7, T8, T9, T10, T11> FromTuple<(T0, T1, T2, T3, T4, T5, T6, T7, T8, T9, T10, T11,)> for (T0, T1, T2, T3, T4, T5, T6, T7, T8, T9, T10, T11,) {
    open spec fn built_from(tuple: (T0, T1, T2, T3, T4, T5, T6, T7, T8, T9, T10, T11,)) -> Self {
        tuple
    }

    fn from_tuple(tuple: (T0, T1, T2, T3, T4, T5, T6, T7, T8, T9, T10, T11,)) -> (r: Self) {
        tuple
    }
}

/// Resolves a group of 12 to whatever shape the call site expects.
pub fn convert_tuple_12<T0, T1, T2, T3, T4, T5, T6, T7, T8, T9, T10, T11, Out: FromTuple<(T0, T1, T2, T3, T4, T5, T6, T7, T8, T9, T10, T11,)>>(tuple: (T0, T1, T2, T3, T4, T5, T6, T7, T8, T9, T10, T11,)) -> (r: Out)
    ensures
        r == Out::built_from(tuple),
{
    Out::from_tuple(tuple)
}

impl<T> FromTuple<(T, T, T, T, T, T, T, T, T, T, T, T, T,)> for [T; 13] {
    open spec fn built_from(tuple: (T, T, T, T, T, T, T, T, T, T, T, T, T,)) -> Self {
        [tuple.0, tuple.1, tuple.2, tuple.3, tuple.4, tuple.5, tuple.6, tuple.7, tuple.8, tuple.9, tuple.10, tuple.11, tuple.12]
    }

    fn from_tuple(tuple: (T, T, T, T, T, T, T, T, T, T, T, T, T,)) -> (r: Self) {
        [tuple.0, tuple.1, tuple.2, tuple.3, tuple.4, tuple.5, tuple.6, tuple.7, tuple.8, tuple.9, tuple.10, tuple.11, tuple.12]
    }
}

impl<T0, T1, T2, T3, T4, T5, T6, T7, T8, T9, T10, T11, T12> FromTuple<(T0, T1, T2, T3, T4, T5, T6, T7, T8, T9, T10, T11, T12,)> for (T0, T1, T2, T3, T4, T5, T6, T7, T8, T9, T10, T11, T12,) {
    open spec fn built_from(tuple: (T0, T1, T2, T3, T4, T5, T6, T7, T8, T9, T10, T11, T12,)) -> Self {
        tuple
    }

    fn from_tuple(tuple: (T0, T1, T2, T3, T4, T5, T6, T7, T8, T9, T10, T11, T12,)) -> (r: Self) {
        tuple
    }
}

/// Resolves a group of 13 to whatever shape the call site expects.
pub fn convert_tuple_13<T0, T1, T2, T3, T4, T5, T6, T7, T8, T9, T10, T11, T12, Out: FromTuple<(T0, T1, T2, T3, T4, T5, T6, T7, T8, T9, T10, T11, T12,)>>(tuple: (T0, T1, T2, T3, T4, T5, T6, T7, T8, T9, T10, T11, T12,)) -> (r: Out)
    ensures
        r == Out::built_from(tuple),
{
    Out::from_tuple(tuple)
}

impl<T> FromTuple<(T, T, T, T, T, T, T, T, T, T, T, T, T, T,)> for [T; 14] {
    open spec fn built_from(tuple: (T, T, T, T, T, T, T, T, T, T, T, T, T, T,)) -> Self {
        [tuple.0, tuple.1, tuple.2, tuple.3, tuple.4, tuple.5, tuple.6, tuple.7, tuple.8, tuple.9, tuple.10, tuple.11, tuple.12, tuple.13]
    }

    fn from_tuple(tuple: (T, T, T, T, T, T, T, T, T, T, T, T, T, T,)) -> (r: Self) {
        [tuple.0, tuple.1, tuple.2, tuple.3, tuple.4, tuple.5, tuple.6, tuple.7, tuple.8, tuple.9, tuple.10, tuple.11, tuple.12, tuple.13]
    }
}

impl<T0, T1, T2, T3, T4, T5, T6, T7, T8, T9, T10, T11, T12, T13> FromTuple<(T0, T1, T2, T3, T4, T5, T6, T7, T8, T9, T10, T11, T12, T13,)> for (T0, T1, T2, T3, T4, T5, T6, T7, T8, T9, T10, T11, T12, T13,) {
    open spec fn built_from(tuple: (T0, T1, T2, T3, T4, T5, T6, T7, T8, T9, T10, T11, T12, T13,)) -> Self {
        tuple
    }

    fn from_tuple(tuple: (T0, T1, T2, T3, T4, T5, T6, T7, T8, T9, T10, T11, T12, T13,)) -> (r: Self) {
        tuple
    }
}

/// Resolves a group of 14 to whatever shape the call site expects.
pub fn convert_tuple_14<T0, T1, T2, T3, T4, T5, T6, T7, T8, T9, T10, T11, T12, T13, Out: FromTuple<(T0, T1, T2, T3, T4, T5, T6, T7, T8, T9, T10, T11, T12, T13,)>>(tuple: (T0, T1, T2, T3, T4, T5, T6, T7, T8, T9, T10, T11, T12, T13,)) -> (r: Out)
    ensures
        r == Out::built_from(tuple),
{
    Out::from_tuple(tuple)
}

impl<T> FromTuple<(T, T, T, T, T, T, T, T, T, T, T, T, T, T, T,)> for [T; 15] {
    open spec fn built_from(tuple: (T, T, T, T, T, T, T, T, T, T, T, T, T, T, T,)) -> Self {
        [tuple.0, tuple.1, tuple.2, tuple.3, tuple.4, tuple.5, tuple.6, tuple.7, tuple.8, tuple.9, tuple.10, tuple.11, tuple.12, tuple.13, tuple.14]
    }

    fn from_tuple(tuple: (T, T, T, T, T, T, T, T, T, T, T, T, T, T, T,)) -> (r: Self) {
        [tuple.0, tuple.1, tuple.2, tuple.3, tuple.4, tuple.5, tuple.6, tuple.7, tuple.8, tuple.9, tuple.10, tuple.11, tuple.12, tuple.13, tuple.14]
    }
}

impl<T0, T1, T2, T3, T4, T5, T6, T7, T8, T9, T10, T11, T12, T13, T14> FromTuple<(T0, T1, T2, T3, T4, T5, T6, T7, T8, T9, T10, T11, T12, T13, T14,)> for (T0, T1, T2, T3, T4, T5, T6, T7, T8, T9, T10, T11, T12, T13, T14,) {
    open spec fn built_from(tuple: (T0, T1, T2, T3, T4, T5, T6, T7, T8, T9, T10, T11, T12, T13, T14,)) -> Self {
        tuple
    }

    fn from_tuple(tuple: (T0, T1, T2, T3, T4, T5, T6, T7, T8, T9, T10, T11, T12, T13, T14,)) -> (r: Self) {
        tuple
    }
}

/// Resolves a group of 15 to whatever shape the call site expects.
pub fn convert_tuple_15<T0, T1, T2, T3, T4, T5, T6, T7, T8, T9, T10, T11, T12, T13, T14, Out: FromTuple<(T0, T1, T2, T3, T4, T5, T6, T7, T8, T9, T10, T11, T12, T13, T14,)>>(tuple: (T0, T1, T2, T3, T4, T5, T6, T7, T8, T9, T10, T11, T12, T13, T14,)) -> (r: Out)
    ensures
        r == Out::built_from(tuple),
{
    Out::from_tuple(tuple)
}

impl<T> FromTuple<(T, T, T, T, T, T, T, T, T, T, T, T, T, T, T, T,)> for [T; 16] {
    open spec fn built_from(tuple: (T, T, T, T, T, T, T, T, T, T, T, T, T, T, T, T,)) -> Self {
        [tuple.0, tuple.1, tuple.2, tuple.3, tuple.4, tuple.5, tuple.6, tuple.7, tuple.8, tuple.9, tuple.10, tuple.11, tuple.12, tuple.13, tuple.14, tuple.15]
    }

    fn from_tuple(tuple: (T, T, T, T, T, T, T, T, T, T, T, T, T, T, T, T,)) -> (r: Self) {
        [tuple.0, tuple.1, tuple.2, tuple.3, tuple.4, tuple.5, tuple.6, tuple.7, tuple.8, tuple.9, tuple.10, tuple.11, tuple.12, tuple.13, tuple.14, tuple.15]
    }
}

impl<T0, T1, T2, T3, T4, T5, T6, T7, T8, T9, T10, T11, T12, T13, T14, T15> FromTuple<(T0, T1, T2, T3, T4, T5, T6, T7, T8, T9, T10, T11, T12, T13, T14, T15,)> for (T0, T1, T2, T3, T4, T5, T6, T7, T8, T9, T10, T11, T12, T13, T14, T15,) {
    open spec fn built_from(tuple: (T0, T1, T2, T3, T4, T5, T6, T7, T8, T9, T10, T11, T12, T13, T14, T15,)) -> Self {
        tuple
    }

    fn from_tuple(tuple: (T0, T1, T2, T3, T4, T5, T6, T7, T8, T9, T10, T11, T12, T13, T14, T15,)) -> (r: Self) {
        tuple
    }
}

/// Resolves a group of 16 to whatever shape the call site expects.
pub fn convert_tuple_16<T0, T1, T2, T3, T4, T5, T6, T7, T8, T9, T10, T11, T12, T13, T14, T15, Out: FromTuple<(T0, T1, T2, T3, T4, T5, T6, T7, T8, T9, T10, T11, T12, T13, T14, T15,)>>(tuple: (T0, T1, T2, T3, T4, T5, T6, T7, T8, T9, T10, T11, T12, T13, T14, T15,)) -> (r: Out)
    ensures
        r == Out::built_from(tuple),
{
    Out::from_tuple(tuple)
}

impl<T> FromTuple<(T, T, T, T, T, T, T, T, T, T, T, T, T, T, T, T, T,)> for [T; 17] {
    open spec fn built_from(tuple: (T, T, T, T, T, T, T, T, T, T, T, T, T, T, T, T, T,)) -> Self {
        [tuple.0, tuple.1, tuple.2, tuple.3, tuple.4, tuple.5, tuple.6, tuple.7, tuple.8, tuple.9, tuple.10, tuple.11, tuple.12, tuple.13, tuple.14, tuple.15, tuple.16]
    }

    fn from_tuple(tuple: (T, T, T, T, T, T, T, T, T, T, T, T, T, T, T, T, T,)) -> (r: Self) {
        [tuple.0, tuple.1, tuple.2, tuple.3, tuple.4, tuple.5, tuple.6, tuple.7, tuple.8, tuple.9, tuple.10, tuple.11, tuple.12, tuple.13, tuple.14, tuple.15, tuple.16]
    }
}

impl<T0, T1, T2, T3, T4, T5, T6, T7, T8, T9, T10, T11, T12, T13, T14, T15, T16> FromTuple<(T0, T1, T2, T3, T4, T5, T6, T7, T8, T9, T10, T11, T12, T13, T14, T15, T16,)> for (T0, T1, T2, T3, T4, T5, T6, T7, T8, T9, T10, T11, T12, T13, T14, T15, T16,) {
    open spec fn built_from(tuple: (T0, T1, T2, T3, T4, T5, T6, T7, T8, T9, T10, T11, T12, T13, T14, T15, T16,)) -> Self {
        tuple
    }

    fn from_tuple(tuple: (T0, T1, T2, T3, T4, T5, T6, T7, T8, T9, T10, T11, T12, T13, T14, T15, T16,)) -> (r: Self) {
        tuple
    }
}

/// Resolves a group of 17 to whatever shape the call site expects.
pub fn convert_tuple_17<T0, T1, T2, T3, T4, T5, T6, T7, T8, T9, T10, T11, T12, T13, T14, T15, T16, Out: FromTuple<(T0, T1, T2, T3, T4, T5, T6, T7, T8, T9, T10, T11, T12, T13, T14, T15, T16,)>>(tuple: (T0, T1, T2, T3, T4, T5, T6, T7, T8, T9, T10, T11, T12, T13, T14, T15, T16,)) -> (r: Out)
    ensures
        r == Out::built_from(tuple),
{
    Out::from_tuple(tuple)
}

impl<T> FromTuple<(T, T, T, T, T, T, T, T, T, T, T, T, T, T, T, T, T, T,)> for [T; 18] {
    open spec fn built_from(tuple: (T, T, T, T, T, T, T, T, T, T, T, T, T, T, T, T, T, T,)) -> Self {
        [tuple.0, tuple.1, tuple.2, tuple.3, tuple.4, tuple.5, tuple.6, tuple.7, tuple.8, tuple.9, tuple.10, tuple.11, tuple.12, tuple.13, tuple.14, tuple.15, tuple.16, tuple.17]
    }

    fn from_tuple(tuple: (T, T, T, T, T, T, T, T, T, T, T, T, T, T, T, T, T, T,)) -> (r: Self) {
        [tuple.0, tuple.1, tuple.2, tuple.3, tuple.4, tuple.5, tuple.6, tuple.7, tuple.8, tuple.9, tuple.10, tuple.11, tuple.12, tuple.13, tuple.14, tuple.15, tuple.16, tuple.17]
    }
}

impl<T0, T1, T2, T3, T4, T5, T6, T7, T8, T9, T10, T11, T12, T13, T14, T15, T16, T17> FromTuple<(T0, T1, T2, T3, T4, T5, T6, T7, T8, T9, T10, T11, T12, T13, T14, T15, T16, T17,)> for (T0, T1, T2, T3, T4, T5, T6, T7, T8, T9, T10, T11, T12, T13, T14, T15, T16, T17,) {
    open spec fn built_from(tuple: (T0, T1, T2, T3, T4, T5, T6, T7, T8, T9, T10, T11, T12, T13, T14, T15, T16, T17,)) -> Self {
        tuple
    }

    fn from_tuple(tuple: (T0, T1, T2, T3, T4, T5, T6, T7, T8, T9, T10, T11, T12, T13, T14, T15, T16, T17,)) -> (r: Self) {
        tuple
    }
}

/// Resolves a group of 18 to whatever shape the call site expects.
pub fn convert_tuple_18<T0, T1, T2, T3, T4, T5, T6, T7, T8, T9, T10, T11, T12, T13, T14, T15, T16, T17, Out: FromTuple<(T0, T1, T2, T3, T4, T5, T6, T7, T8, T9, T10, T11, T12, T13, T14, T15, T16, T17,)>>(tuple: (T0, T1, T2, T3, T4, T5, T6, T7, T8, T9, T10, T11, T12, T13, T14, T15, T16, T17,)) -> (r: Out)
    ensures
        r == Out::built_from(tuple),
{
    Out::from_tuple(tuple)
}

impl<T> FromTuple<(T, T, T, T, T, T, T, T, T, T, T, T, T, T, T, T, T, T, T,)> for [T; 19] {
    open spec fn built_from(tuple: (T, T, T, T, T, T, T, T, T, T, T, T, T, T, T, T, T, T, T,)) -> Self {
        [tuple.0, tuple.1, tuple.2, tuple.3, tuple.4, tuple.5, tuple.6, tuple.7, tuple.8, tuple.9, tuple.10, tuple.11, tuple.12, tuple.13, tuple.14, tuple.15, tuple.16, tuple.17, tuple.18]
    }

    fn from_tuple(tuple: (T, T, T, T, T, T, T, T, T, T, T, T, T, T, T, T, T, T, T,)) -> (r: Self) {
        [tuple.0, tuple.1, tuple.2, tuple.3, tuple.4, tuple.5, tuple.6, tuple.7, tuple.8, tuple.9, tuple.10, tuple.11, tuple.12, tuple.13, tuple.14, tuple.15, tuple.16, tuple.17, tuple.18]
    }
}

impl<T0, T1, T2, T3, T4, T5, T6, T7, T8, T9, T10, T11, T12, T13, T14, T15, T16, T17, T18> FromTuple<(T0, T1, T2, T3, T4, T5, T6, T7, T8, T9, T10, T11, T12, T13, T14, T15, T16, T17, T18,)> for (T0, T1, T2, T3, T4, T5, T6, T7, T8, T9, T10, T11, T12, T13, T14, T15, T16, T17, T18,) {
    open spec fn built_from(tuple: (T0, T1, T2, T3, T4, T5, T6, T7, T8, T9, T10, T11, T12, T13, T14, T15, T16, T17, T18,)) -> Self {
        tuple
    }

    fn from_tuple(tuple: (T0, T1, T2, T3, T4, T5, T6, T7, T8, T9, T10, T11, T12, T13, T14, T15, T16, T17, T18,)) -> (r: Self) {
        tuple
    }
}

/// Resolves a group of 19 to whatever shape the call site expects.
pub fn convert_tuple_19<T0, T1, T2, T3, T4, T5, T6, T7, T8, T9, T10, T11, T12, T13, T14, T15, T16, T17, T18, Out: FromTuple<(T0, T1, T2, T3, T4, T5, T6, T7, T8, T9, T10, T11, T12, T13, T14, T15, T16, T17, T18,)>>(tuple: (T0, T1, T2, T3, T4, T5, T6, T7, T8, T9, T10, T11, T12, T13, T14, T15, T16, T17, T18,)) -> (r: Out)
    ensures
        r == Out::built_from(tuple),
{
    Out::from_tuple(tuple)
}

impl<T> FromTuple<(T, T, T, T, T, T, T, T, T, T, T, T, T, T, T, T, T, T, T, T,)> for [T; 20] {
    open spec fn built_from(tuple: (T, T, T, T, T, T, T, T, T, T, T, T, T, T, T, T, T, T, T, T,)) -> Self {
        [tuple.0, tuple.1, tuple.2, tuple.3, tuple.4, tuple.5, tuple.6, tuple.7, tuple.8, tuple.9, tuple.10, tuple.11, tuple.12, tuple.13, tuple.14, tuple.15, tuple.16, tuple.17, tuple.18, tuple.19]
    }

    fn from_tuple(tuple: (T, T, T, T, T, T, T, T, T, T, T, T, T, T, T, T, T, T, T, T,)) -> (r: Self) {
        [tuple.0, tuple.1, tuple.2, tuple.3, tuple.4, tuple.5, tuple.6, tuple.7, tuple.8, tuple.9, tuple.10, tuple.11, tuple.12, tuple.13, tuple.14, tuple.15, tuple.16, tuple.17, tuple.18, tuple.19]
    }
}

impl<T0, T1, T2, T3, T4, T5, T6, T7, T8, T9, T10, T11, T12, T13, T14, T15, T16, T17, T18, T19> FromTuple<(T0, T1, T2, T3, T4, T5, T6, T7, T8, T9, T10, T11, T12, T13, T14, T15, T16, T17, T18, T19,)> for (T0, T1, T2, T3, T4, T5, T6, T7, T8, T9, T10, T11, T12, T13, T14, T15, T16, T17, T18, T19,) {
    open spec fn built_from(tuple: (T0, T1, T2, T3, T4, T5, T6, T7, T8, T9, T10, T11, T12, T13, T14, T15, T16, T17, T18, T19,)) -> Self {
        tuple
    }

    fn from_tuple(tuple: (T0, T1, T2, T3, T4, T5, T6, T7, T8, T9, T10, T11, T12, T13, T14, T15, T16, T17, T18, T19,)) -> (r: Self) {
        tuple
    }
}

/// Resolves a group of 20 to whatever shape the call site expects.
pub fn convert_tuple_20<T0, T1, T2, T3, T4, T5, T6, T7, T8, T9, T10, T11, T12, T13, T14, T15, T16, T17, T18, T19, Out: FromTuple<(T0, T1, T2, T3, T4, T5, T6, T7, T8, T9, T10, T11, T12, T13, T14, T15, T16, T17, T18, T19,)>>(tuple: (T0, T1, T2, T3, T4, T5, T6, T7, T8, T9, T10, T11, T12, T13, T14, T15, T16, T17, T18, T19,)) -> (r: Out)
    ensures
        r == Out::built_from(tuple),
{
    Out::from_tuple(tuple)
}

impl<T> FromTuple<(T, T, T, T, T, T, T, T, T, T, T, T, T, T, T, T, T, T, T, T, T,)> for [T; 21] {
    open spec fn built_from(tuple: (T, T, T, T, T, T, T, T, T, T, T, T, T, T, T, T, T, T, T, T, T,)) -> Self {
        [tuple.0, tuple.1, tuple.2, tuple.3, tuple.4, tuple.5, tuple.6, tuple.7, tuple.8, tuple.9, tuple.10, tuple.11, tuple.12, tuple.13, tuple.14, tuple.15, tuple.16, tuple.17, tuple.18, tuple.19, tuple.20]
    }

    fn from_tuple(tuple: (T, T, T, T, T, T, T, T, T, T, T, T, T, T, T, T, T, T, T, T, T,)) -> (r: Self) {
        [tuple.0, tuple.1, tuple.2, tuple.3, tuple.4, tuple.5, tuple.6, tuple.7, tuple.8, tuple.9, tuple.10, tuple.11, tuple.12, tuple.13, tuple.14, tuple.15, tuple.16, tuple.17, tuple.18, tuple.19, tuple.20]
    }
}

impl<T0, T1, T2, T3, T4, T5, T6, T7, T8, T9, T10, T11, T12, T13, T14, T15, T16, T17, T18, T19, T20> FromTuple<(T0, T1, T2, T3, T4, T5, T6, T7, T8, T9, T10, T11, T12, T13, T14, T15, T16, T17, T18, T19, T20,)> for (T0, T1, T2, T3, T4, T5, T6, T7, T8, T9, T10, T11, T12, T13, T14, T15, T16, T17, T18, T19, T20,) {
    open spec fn built_from(tuple: (T0, T1, T2, T3, T4, T5, T6, T7, T8, T9, T10, T11, T12, T13, T14, T15, T16, T17, T18, T19, T20,)) -> Self {
        tuple
    }

    fn from_tuple(tuple: (T0, T1, T2, T3, T4, T5, T6, T7, T8, T9, T10, T11, T12, T13, T14, T15, T16, T17, T18, T19, T20,)) -> (r: Self) {
        tuple
    }
}

/// Resolves a group of 21 to whatever shape the call site expects.
pub fn convert_tuple_21<T0, T1, T2, T3, T4, T5, T6, T7, T8, T9, T10, T11, T12, T13, T14, T15, T16, T17, T18, T19, T20, Out: FromTuple<(T0, T1, T2, T3, T4, T5, T6, T7, T8, T9, T10, T11, T12, T13, T14, T15, T16, T17, T18, T19, T20,)>>(tuple: (T0, T1, T2, T3, T4, T5, T6, T7, T8, T9, T10, T11, T12, T13, T14, T15, T16, T17, T18, T19, T20,)) -> (r: Out)
    ensures
        r == Out::built_from(tuple),
{
    Out::from_tuple(tuple)
}

impl<T> FromTuple<(T, T, T, T, T, T, T, T, T, T, T, T, T, T, T, T, T, T, T, T, T, T,)> for [T; 22] {
    open spec fn built_from(tuple: (T, T, T, T, T, T, T, T, T, T, T, T, T, T, T, T, T, T, T, T, T, T,)) -> Self {
        [tuple.0, tuple.1, tuple.2, tuple.3, tuple.4, tuple.5, tuple.6, tuple.7, tuple.8, tuple.9, tuple.10, tuple.11, tuple.12, tuple.13, tuple.14, tuple.15, tuple.16, tuple.17, tuple.18, tuple.19, tuple.20, tuple.21]
    }

    fn from_tuple(tuple: (T, T, T, T, T, T, T, T, T, T, T, T, T, T, T, T, T, T, T, T, T, T,)) -> (r: Self) {
        [tuple.0, tuple.1, tuple.2, tuple.3, tuple.4, tuple.5, tuple.6, tuple.7, tuple.8, tuple.9, tuple.10, tuple.11, tuple.12, tuple.13, tuple.14, tuple.15, tuple.16, tuple.17, tuple.18, tuple.19, tuple.20, tuple.21]
    }
}

impl<T0, T1, T2, T3, T4, T5, T6, T7, T8, T9, T10, T11, T12, T13, T14, T15, T16, T17, T18, T19, T20, T21> FromTuple<(T0, T1, T2, T3, T4, T5, T6, T7, T8, T9, T10, T11, T12, T13, T14, T15, T16, T17, T18, T19, T20, T21,)> for (T0, T1, T2, T3, T4, T5, T6, T7, T8, T9, T10, T11, T12, T13, T14, T15, T16, T17, T18, T19, T20, T21,) {
    open spec fn built_from(tuple: (T0, T1, T2, T3, T4, T5, T6, T7, T8, T9, T10, T11, T12, T13, T14, T15, T16, T17, T18, T19, T20, T21,)) -> Self {
        tuple
    }

    fn from_tuple(tuple: (T0, T1, T2, T3, T4, T5, T6, T7, T8, T9, T10, T11, T12, T13, T14, T15, T16, T17, T18, T19, T20, T21,)) -> (r: Self) {
        tuple
    }
}

/// Resolves a group of 22 to whatever shape the call site expects.
pub fn convert_tuple_22<T0, T1, T2, T3, T4, T5, T6, T7, T8, T9, T10, T11, T12, T13, T14, T15, T16, T17, T18, T19, T20, T21, Out: FromTuple<(T0, T1, T2, T3, T4, T5, T6, T7, T8, T9, T10, T11, T12, T13, T14, T15, T16, T17, T18, T19, T20, T21,)>>(tuple: (T0, T1, T2, T3, T4, T5, T6, T7, T8, T9, T10, T11, T12, T13, T14, T15, T16, T17, T18, T19, T20, T21,)) -> (r: Out)
    ensures
        r == Out::built_from(tuple),
{
    Out::from_tuple(tuple)
}

impl<T> FromTuple<(T, T, T, T, T, T, T, T, T, T, T, T, T, T, T, T, T, T, T, T, T, T, T,)> for [T; 23] {
    open spec fn built_from(tuple: (T, T, T, T, T, T, T, T, T, T, T, T, T, T, T, T, T, T, T, T, T, T, T,)) -> Self {
        [tuple.0, tuple.1, tuple.2, tuple.3, tuple.4, tuple.5, tuple.6, tuple.7, tuple.8, tuple.9, tuple.10, tuple.11, tuple.12, tuple.13, tuple.14, tuple.15, tuple.16, tuple.17, tuple.18, tuple.19, tuple.20, tuple.21, tuple.22]
    }

    fn from_tuple(tuple: (T, T, T, T, T, T, T, T, T, T, T, T, T, T, T, T, T, T, T, T, T, T, T,)) -> (r: Self) {
        [tuple.0, tuple.1, tuple.2, tuple.3, tuple.4, tuple.5, tuple.6, tuple.7, tuple.8, tuple.9, tuple.10, tuple.11, tuple.12, tuple.13, tuple.14, tuple.15, tuple.16, tuple.17, tuple.18, tuple.19, tuple.20, tuple.21, tuple.22]
    }
}

impl<T0, T1, T2, T3, T4, T5, T6, T7, T8, T9, T10, T11, T12, T13, T14, T15, T16, T17, T18, T19, T20, T21, T22> FromTuple<(T0, T1, T2, T3, T4, T5, T6, T7, T8, T9, T10, T11, T12, T13, T14, T15, T16, T17, T18, T19, T20, T21, T22,)> for (T0, T1, T2, T3, T4, T5, T6, T7, T8, T9, T10, T11, T12, T13, T14, T15, T16, T17, T18, T19, T20, T21, T22,) {
    open spec fn built_from(tuple: (T0, T1, T2, T3, T4, T5, T6, T7, T8, T9, T10, T11, T12, T13, T14, T15, T16, T17, T18, T19, T20, T21, T22,)) -> Self {
        tuple
    }

    fn from_tuple(tuple: (T0, T1, T2, T3, T4, T5, T6, T7, T8, T9, T10, T11, T12, T13, T14, T15, T16, T17, T18, T19, T20, T21, T22,)) -> (r: Self) {
        tuple
    }
}

/// Resolves a group of 23 to whatever shape the call site expects.
pub fn convert_tuple_23<T0, T1, T2, T3, T4, T5, T6, T7, T8, T9, T10, T11, T12, T13, T14, T15, T16, T17, T18, T19, T20, T21, T22, Out: FromTuple<(T0, T1, T2, T3, T4, T5, T6, T7, T8, T9, T10, T11, T12, T13, T14, T15, T16, T17, T18, T19, T20, T21, T22,)>>(tuple: (T0, T1, T2, T3, T4, T5, T6, T7, T8, T9, T10, T11, T12, T13, T14, T15, T16, T17, T18, T19, T20, T21, T22,)) -> (r: Out)
    ensures
        r == Out::built_from(tuple),
{
    Out::from_tuple(tuple)
}

impl<T> FromTuple<(T, T, T, T, T, T, T, T, T, T, T, T, T, T, T, T, T, T, T, T, T, T, T, T,)> for [T; 24] {
    open spec fn built_from(tuple: (T, T, T, T, T, T, T, T, T, T, T, T, T, T, T, T, T, T, T, T, T, T, T, T,)) -> Self {
        [tuple.0, tuple.1, tuple.2, tuple.3, tuple.4, tuple.5, tuple.6, tuple.7, tuple.8, tuple.9, tuple.10, tuple.11, tuple.12, tuple.13, tuple.14, tuple.15, tuple.16, tuple.17, tuple.18, tuple.19, tuple.20, tuple.21, tuple.22, tuple.23]
    }

    fn from_tuple(tuple: (T, T, T, T, T, T, T, T, T, T, T, T, T, T, T, T, T, T, T, T, T, T, T, T,)) -> (r: Self) {
        [tuple.0, tuple.1, tuple.2, tuple.3, tuple.4, tuple.5, tuple.6, tuple.7, tuple.8, tuple.9, tuple.10, tuple.11, tuple.12, tuple.13, tuple.14, tuple.15, tuple.16, tuple.17, tuple.18, tuple.19, tuple.20, tuple.21, tuple.22, tuple.23]
    }
}

impl<T0, T1, T2, T3, T4, T5, T6, T7, T8, T9, T10, T11, T12, T13, T14, T15, T16, T17, T18, T19, T20, T21, T22, T23> FromTuple<(T0, T1, T2, T3, T4, T5, T6, T7, T8, T9, T10, T11, T12, T13, T14, T15, T16, T17, T18, T19, T20, T21, T22, T23,)> for (T0, T1, T2, T3, T4, T5, T6, T7, T8, T9, T10, T11, T12, T13, T14, T15, T16, T17, T18, T19, T20, T21, T22, T23,) {
    open spec fn built_from(tuple: (T0, T1, T2, T3, T4, T5, T6, T7, T8, T9, T10, T11, T12, T13, T14, T15, T16, T17, T18, T19, T20, T21, T22, T23,)) -> Self {
        tuple
    }

    fn from_tuple(tuple: (T0, T1, T2, T3, T4, T5, T6, T7, T8, T9, T10, T11, T12, T13, T14, T15, T16, T17, T18, T19, T20, T21, T22, T23,)) -> (r: Self) {
        tuple
    }
}

/// Resolves a group of 24 to whatever shape the call site expects.
pub fn convert_tuple_24<T0, T1, T2, T3, T4, T5, T6, T7, T8, T9, T10, T11, T12, T13, T14, T15, T16, T17, T18, T19, T20, T21, T22, T23, Out: FromTuple<(T0, T1, T2, T3, T4, T5, T6, T7, T8, T9, T10, T11, T12, T13, T14, T15, T16, T17, T18, T19, T20, T21, T22, T23,)>>(tuple: (T0, T1, T2, T3, T4, T5, T6, T7, T8, T9, T10, T11, T12, T13, T14, T15, T16, T17, T18, T19, T20, T21, T22, T23,)) -> (r: Out)
    ensures
        r == Out::built_from(tuple),
{
    Out::from_tuple(tuple)
}

impl<T> FromTuple<(T, T, T, T, T, T, T, T, T, T, T, T, T, T, T, T, T, T, T, T, T, T, T, T, T,)> for [T; 25] {
    open spec fn built_from(tuple: (T, T, T, T, T, T, T, T, T, T, T, T, T, T, T, T, T, T, T, T, T, T, T, T, T,)) -> Self {
        [tuple.0, tuple.1, tuple.2, tuple.3, tuple.4, tuple.5, tuple.6, tuple.7, tuple.8, tuple.9, tuple.10, tuple.11, tuple.12, tuple.13, tuple.14, tuple.15, tuple.16, tuple.17, tuple.18, tuple.19, tuple.20, tuple.21, tuple.22, tuple.23, tuple.24]
    }

    fn from_tuple(tuple: (T, T, T, T, T, T, T, T, T, T, T, T, T, T, T, T, T, T, T, T, T, T, T, T, T,)) -> (r: Self) {
        [tuple.0, tuple.1, tuple.2, tuple.3, tuple.4, tuple.5, tuple.6, tuple.7, tuple.8, tuple.9, tuple.10, tuple.11, tuple.12, tuple.13, tuple.14, tuple.15, tuple.16, tuple.17, tuple.18, tuple.19, tuple.20, tuple.21, tuple.22, tuple.23, tuple.24]
    }
}

impl<T0, T1, T2, T3, T4, T5, T6, T7, T8, T9, T10, T11, T12, T13, T14, T15, T16, T17, T18, T19, T20, T21, T22, T23, T24> FromTuple<(T0, T1, T2, T3, T4, T5, T6, T7, T8, T9, T10, T11, T12, T13, T14, T15, T16, T17, T18, T19, T20, T21, T22, T23, T24,)> for (T0, T1, T2, T3, T4, T5, T6, T7, T8, T9, T10, T11, T12, T13, T14, T15, T16, T17, T18, T19, T20, T21, T22, T23, T24,) {
    open spec fn built_from(tuple: (T0, T1, T2, T3, T4, T5, T6, T7, T8, T9, T10, T11, T12, T13, T14, T15, T16, T17, T18, T19, T20, T21, T22, T23, T24,)) -> Self {
        tuple
    }

    fn from_tuple(tuple: (T0, T1, T2, T3, T4, T5, T6, T7, T8, T9, T10, T11, T12, T13, T14, T15, T16, T17, T18, T19, T20, T21, T22, T23, T24,)) -> (r: Self) {
        tuple
    }
}

/// Resolves a group of 25 to whatever shape the call site expects.
pub fn convert_tuple_25<T0, T1, T2, T3, T4, T5, T6, T7, T8, T9, T10, T11, T12, T13, T14, T15, T16, T17, T18, T19, T20, T21, T22, T23, T24, Out: FromTuple<(T0, T1, T2, T3, T4, T5, T6, T7, T8, T9, T10, T11, T12, T13, T14, T15, T16, T17, T18, T19, T20, T21, T22, T23, T24,)>>(tuple: (T0, T1, T2, T3, T4, T5, T6, T7, T8, T9, T10, T11, T12, T13, T14, T15, T16, T17, T18, T19, T20, T21, T22, T23, T24,)) -> (r: Out)
    ensures
        r == Out::built_from(tuple),
{
    Out::from_tuple(tuple)
}

impl<T> FromTuple<(T, T, T, T, T, T, T, T, T, T, T, T, T, T, T, T, T, T, T, T, T, T, T, T, T, T,)> for [T; 26] {
    open spec fn built_from(tuple: (T, T, T, T, T, T, T, T, T, T, T, T, T, T, T, T, T, T, T, T, T, T, T, T, T, T,)) -> Self {
        [tuple.0, tuple.1, tuple.2, tuple.3, tuple.4, tuple.5, tuple.6, tuple.7, tuple.8, tuple.9, tuple.10, tuple.11, tuple.12, tuple.13, tuple.14, tuple.15, tuple.16, tuple.17, tuple.18, tuple.19, tuple.20, tuple.21, tuple.22, tuple.23, tuple.24, tuple.25]
    }

    fn from_tuple(tuple: (T, T, T, T, T, T, T, T, T, T, T, T, T, T, T, T, T, T, T, T, T, T, T, T, T, T,)) -> (r: Self) {
        [tuple.0, tuple.1, tuple.2, tuple.3, tuple.4, tuple.5, tuple.6, tuple.7, tuple.8, tuple.9, tuple.10, tuple.11, tuple.12, tuple.13, tuple.14, tuple.15, tuple.16, tuple.17, tuple.18, tuple.19, tuple.20, tuple.21, tuple.22, tuple.23, tuple.24, tuple.25]
    }
}

impl<T0, T1, T2, T3, T4, T5, T6, T7, T8, T9, T10, T11, T12, T13, T14, T15, T16, T17, T18, T19, T20, T21, T22, T23, T24, T25> FromTuple<(T0, T1, T2, T3, T4, T5, T6, T7, T8, T9, T10, T11, T12, T13, T14, T15, T16, T17, T18, T19, T20, T21, T22, T23, T24, T25,)> for (T0, T1, T2, T3, T4, T5, T6, T7, T8, T9, T10, T11, T12, T13, T14, T15, T16, T17, T18, T19, T20, T21, T22, T23, T24, T25,) {
    open spec fn built_from(tuple: (T0, T1, T2, T3, T4, T5, T6, T7, T8, T9, T10, T11, T12, T13, T14, T15, T16, T17, T18, T19, T20, T21, T22, T23, T24, T25,)) -> Self {
        tuple
    }

    fn from_tuple(tuple: (T0, T1, T2, T3, T4, T5, T6, T7, T8, T9, T10, T11, T12, T13, T14, T15, T16, T17, T18, T19, T20, T21, T22, T23, T24, T25,)) -> (r: Self) {
        tuple
    }
}

/// Resolves a group of 26 to whatever shape the call site expects.
pub fn convert_tuple_26<T0, T1, T2, T3, T4, T5, T6, T7, T8, T9, T10, T11, T12, T13, T14, T15, T16, T17, T18, T19, T20, T21, T22, T23, T24, T25, Out: FromTuple<(T0, T1, T2, T3, T4, T5, T6, T7, T8, T9, T10, T11, T12, T13, T14, T15, T16, T17, T18, T19, T20, T21, T22, T23, T24, T25,)>>(tuple: (T0, T1, T2, T3, T4, T5, T6, T7, T8, T9, T10, T11, T12, T13, T14, T15, T16, T17, T18, T19, T20, T21, T22, T23, T24, T25,)) -> (r: Out)
    ensures
        r == Out::built_from(tuple),
{
    Out::from_tuple(tuple)
}

impl<T> FromTuple<(T, T, T, T, T, T, T, T, T, T, T, T, T, T, T, T, T, T, T, T, T, T, T, T, T, T, T,)> for [T; 27] {
    open spec fn built_from(tuple: (T, T, T, T, T, T, T, T, T, T, T, T, T, T, T, T, T, T, T, T, T, T, T, T, T, T, T,)) -> Self {
        [tuple.0, tuple.1, tuple.2, tuple.3, tuple.4, tuple.5, tuple.6, tuple.7, tuple.8, tuple.9, tuple.10, tuple.11, tuple.12, tuple.13, tuple.14, tuple.15, tuple.16, tuple.17, tuple.18, tuple.19, tuple.20, tuple.21, tuple.22, tuple.23, tuple.24, tuple.25, tuple.26]
    }

    fn from_tuple(tuple: (T, T, T, T, T, T, T, T, T, T, T, T, T, T, T, T, T, T, T, T, T, T, T, T, T, T, T,)) -> (r: Self) {
        [tuple.0, tuple.1, tuple.2, tuple.3, tuple.4, tuple.5, tuple.6, tuple.7, tuple.8, tuple.9, tuple.10, tuple.11, tuple.12, tuple.13, tuple.14, tuple.15, tuple.16, tuple.17, tuple.18, tuple.19, tuple.20, tuple.21, tuple.22, tuple.23, tuple.24, tuple.25, tuple.26]
    }
}

impl<T0, T1, T2, T3, T4, T5, T6, T7, T8, T9, T10, T11, T12, T13, T14, T15, T16, T17, T18, T19, T20, T21, T22, T23, T24, T25, T26> FromTuple<(T0, T1, T2, T3, T4, T5, T6, T7, T8, T9, T10, T11, T12, T13, T14, T15, T16, T17, T18, T19, T20, T21, T22, T23, T24, T25, T26,)> for (T0, T1, T2, T3, T4, T5, T6, T7, T8, T9, T10, T11, T12, T13, T14, T15, T16, T17, T18, T19, T20, T21, T22, T23, T24, T25, T26,) {
    open spec fn built_from(tuple: (T0, T1, T2, T3, T4, T5, T6, T7, T8, T9, T10, T11, T12, T13, T14, T15, T16, T17, T18, T19, T20, T21, T22, T23, T24, T25, T26,)) -> Self {
        tuple
    }

    fn from_tuple(tuple: (T0, T1, T2, T3, T4, T5, T6, T7, T8, T9, T10, T11, T12, T13, T14, T15, T16, T17, T18, T19, T20, T21, T22, T23, T24, T25, T26,)) -> (r: Self) {
        tuple
    }
}

/// Resolves a group of 27 to whatever shape the call site expects.
pub fn convert_tuple_27<T0, T1, T2, T3, T4, T5, T6, T7, T8, T9, T10, T11, T12, T13, T14, T15, T16, T17, T18, T19, T20, T21, T22, T23, T24, T25, T26, Out: FromTuple<(T0, T1, T2, T3, T4, T5, T6, T7, T8, T9, T10, T11, T12, T13, T14, T15, T16, T17, T18, T19, T20, T21, T22, T23, T24, T25, T26,)>>(tuple: (T0, T1, T2, T3, T4, T5, T6, T7, T8, T9, T10, T11, T12, T13, T14, T15, T16, T17, T18, T19, T20, T21, T22, T23, T24, T25, T26,)) -> (r: Out)
    ensures
        r == Out::built_from(tuple),
{
    Out::from_tuple(tuple)
}

impl<T> FromTuple<(T, T, T, T, T, T, T, T, T, T, T, T, T, T, T, T, T, T, T, T, T, T, T, T, T, T, T, T,)> for [T; 28] {
    open spec fn built_from(tuple: (T, T, T, T, T, T, T, T, T, T, T, T, T, T, T, T, T, T, T, T, T, T, T, T, T, T, T, T,)) -> Self {
        [tuple.0, tuple.1, tuple.2, tuple.3, tuple.4, tuple.5, tuple.6, tuple.7, tuple.8, tuple.9, tuple.10, tuple.11, tuple.12, tuple.13, tuple.14, tuple.15, tuple.16, tuple.17, tuple.18, tuple.19, tuple.20, tuple.21, tuple.22, tuple.23, tuple.24, tuple.25, tuple.26, tuple.27]
    }

    fn from_tuple(tuple: (T, T, T, T, T, T, T, T, T, T, T, T, T, T, T, T, T, T, T, T, T, T, T, T, T, T, T, T,)) -> (r: Self) {
        [tuple.0, tuple.1, tuple.2, tuple.3, tuple.4, tuple.5, tuple.6, tuple.7, tuple.8, tuple.9, tuple.10, tuple.11, tuple.12, tuple.13, tuple.14, tuple.15, tuple.16, tuple.17, tuple.18, tuple.19, tuple.20, tuple.21, tuple.22, tuple.23, tuple.24, tuple.25, tuple.26, tuple.27]
    }
}

impl<T0, T1, T2, T3, T4, T5, T6, T7, T8, T9, T10, T11, T12, T13, T14, T15, T16, T17, T18, T19, T20, T21, T22, T23, T24, T25, T26, T27> FromTuple<(T0, T1, T2, T3, T4, T5, T6, T7, T8, T9, T10, T11, T12, T13, T14, T15, T16, T17, T18, T19, T20, T21, T22, T23, T24, T25, T26, T27,)> for (T0, T1, T2, T3, T4, T5, T6, T7, T8, T9, T10, T11, T12, T13, T14, T15, T16, T17, T18, T19, T20, T21, T22, T23, T24, T25, T26, T27,) {
    open spec fn built_from(tuple: (T0, T1, T2, T3, T4, T5, T6, T7, T8, T9, T10, T11, T12, T13, T14, T15, T16, T17, T18, T19, T20, T21, T22, T23, T24, T25, T26, T27,)) -> Self {
        tuple
    }

    fn from_tuple(tuple: (T0, T1, T2, T3, T4, T5, T6, T7, T8, T9, T10, T11, T12, T13, T14, T15, T16, T17, T18, T19, T20, T21, T22, T23, T24, T25, T26, T27,)) -> (r: Self) {
        tuple
    }
}

/// Resolves a group of 28 to whatever shape the call site expects.
pub fn convert_tuple_28<T0, T1, T2, T3, T4, T5, T6, T7, T8, T9, T10, T11, T12, T13, T14, T15, T16, T17, T18, T19, T20, T21, T22, T23, T24, T25, T26, T27, Out: FromTuple<(T0, T1, T2, T3, T4, T5, T6, T7, T8, T9, T10, T11, T12, T13, T14, T15, T16, T17, T18, T19, T20, T21, T22, T23, T24, T25, T26, T27,)>>(tuple: (T0, T1, T2, T3, T4, T5, T6, T7, T8, T9, T10, T11, T12, T13, T14, T15, T16, T17, T18, T19, T20, T21, T22, T23, T24, T25, T26, T27,)) -> (r: Out)
    ensures
        r == Out::built_from(tuple),
{
    Out::from_tuple(tuple)
}

impl<T> FromTuple<(T, T, T, T, T, T, T, T, T, T, T, T, T, T, T, T, T, T, T, T, T, T, T, T, T, T, T, T, T,)> for [T; 29] {
    open spec fn built_from(tuple: (T, T, T, T, T, T, T, T, T, T, T, T, T, T, T, T, T, T, T, T, T, T, T, T, T, T, T, T, T,)) -> Self {
        [tuple.0, tuple.1, tuple.2, tuple.3, tuple.4, tuple.5, tuple.6, tuple.7, tuple.8, tuple.9, tuple.10, tuple.11, tuple.12, tuple.13, tuple.14, tuple.15, tuple.16, tuple.17, tuple.18, tuple.19, tuple.20, tuple.21, tuple.22, tuple.23, tuple.24, tuple.25, tuple.26, tuple.27, tuple.28]
    }

    fn from_tuple(tuple: (T, T, T, T, T, T, T, T, T, T, T, T, T, T, T, T, T, T, T, T, T, T, T, T, T, T, T, T, T,)) -> (r: Self) {
        [tuple.0, tuple.1, tuple.2, tuple.3, tuple.4, tuple.5, tuple.6, tuple.7, tuple.8, tuple.9, tuple.10, tuple.11, tuple.12, tuple.13, tuple.14, tuple.15, tuple.16, tuple.17, tuple.18, tuple.19, tuple.20, tuple.21, tuple.22, tuple.23, tuple.24, tuple.25, tuple.26, tuple.27, tuple.28]
    }
}

impl<T0, T1, T2, T3, T4, T5, T6, T7, T8, T9, T10, T11, T12, T13, T14, T15, T16, T17, T18, T19, T20, T21, T22, T23, T24, T25, T26, T27, T28> FromTuple<(T0, T1, T2, T3, T4, T5, T6, T7, T8, T9, T10, T11, T12, T13, T14, T15, T16, T17, T18, T19, T20, T21, T22, T23, T24, T25, T26, T27, T28,)> for (T0, T1, T2, T3, T4, T5, T6, T7, T8, T9, T10, T11, T12, T13, T14, T15, T16, T17, T18, T19, T20, T21, T22, T23, T24, T25, T26, T27, T28,) {
    open spec fn built_from(tuple: (T0, T1, T2, T3, T4, T5, T6, T7, T8, T9, T10, T11, T12, T13, T14, T15, T16, T17, T18, T19, T20, T21, T22, T23, T24, T25, T26, T27, T28,)) -> Self {
        tuple
    }

    fn from_tuple(tuple: (T0, T1, T2, T3, T4, T5, T6, T7, T8, T9, T10, T11, T12, T13, T14, T15, T16, T17, T18, T19, T20, T21, T22, T23, T24, T25, T26, T27, T28,)) -> (r: Self) {
        tuple
    }
}

/// Resolves a group of 29 to whatever shape the call site expects.
pub fn convert_tuple_29<T0, T1, T2, T3, T4, T5, T6, T7, T8, T9, T10, T11, T12, T13, T14, T15, T16, T17, T18, T19, T20, T21, T22, T23, T24, T25, T26, T27, T28, Out: FromTuple<(T0, T1, T2, T3, T4, T5, T6, T7, T8, T9, T10, T11, T12, T13, T14, T15, T16, T17, T18, T19, T20, T21, T22, T23, T24, T25, T26, T27, T28,)>>(tuple: (T0, T1, T2, T3, T4, T5, T6, T7, T8, T9, T10, T11, T12, T13, T14, T15, T16, T17, T18, T19, T20, T21, T22, T23, T24, T25, T26, T27, T28,)) -> (r: Out)
    ensures
        r == Out::built_from(tuple),
{
    Out::from_tuple(tuple)
}

impl<T> FromTuple<(T, T, T, T, T, T, T, T, T, T, T, T, T, T, T, T, T, T, T, T, T, T, T, T, T, T, T, T, T, T,)> for [T; 30] {
    open spec fn built_from(tuple: (T, T, T, T, T, T, T, T, T, T, T, T, T, T, T, T, T, T, T, T, T, T, T, T, T, T, T, T, T, T,)) -> Self {
        [tuple.0, tuple.1, tuple.2, tuple.3, tuple.4, tuple.5, tuple.6, tuple.7, tuple.8, tuple.9, tuple.10, tuple.11, tuple.12, tuple.13, tuple.14, tuple.15, tuple.16, tuple.17, tuple.18, tuple.19, tuple.20, tuple.21, tuple.22, tuple.23, tuple.24, tuple.25, tuple.26, tuple.27, tuple.28, tuple.29]
    }

    fn from_tuple(tuple: (T, T, T, T, T, T, T, T, T, T, T, T, T, T, T, T, T, T, T, T, T, T, T, T, T, T, T, T, T, T,)) -> (r: Self) {
        [tuple.0, tuple.1, tuple.2, tuple.3, tuple.4, tuple.5, tuple.6, tuple.7, tuple.8, tuple.9, tuple.10, tuple.11, tuple.12, tuple.13, tuple.14, tuple.15, tuple.16, tuple.17, tuple.18, tuple.19, tuple.20, tuple.21, tuple.22, tuple.23, tuple.24, tuple.25, tuple.26, tuple.27, tuple.28, tuple.29]
    }
}

impl<T0, T1, T2, T3, T4, T5, T6, T7, T8, T9, T10, T11, T12, T13, T14, T15, T16, T17, T18, T19, T20, T21, T22, T23, T24, T25, T26, T27, T28, T29> FromTuple<(T0, T1, T2, T3, T4, T5, T6, T7, T8, T9, T10, T11, T12, T13, T14, T15, T16, T17, T18, T19, T20, T21, T22, T23, T24, T25, T26, T27, T28, T29,)> for (T0, T1, T2, T3, T4, T5, T6, T7, T8, T9, T10, T11, T12, T13, T14, T15, T16, T17, T18, T19, T20, T21, T22, T23, T24, T25, T26, T27, T28, T29,) {
    open spec fn built_from(tuple: (T0, T1, T2, T3, T4, T5, T6, T7, T8, T9, T10, T11, T12, T13, T14, T15, T16, T17, T18, T19, T20, T21, T22, T23, T24, T25, T26, T27, T28, T29,)) -> Self {
        tuple
    }

    fn from_tuple(tuple: (T0, T1, T2, T3, T4, T5, T6, T7, T8, T9, T10, T11, T12, T13, T14, T15, T16, T17, T18, T19, T20, T21, T22, T23, T24, T25, T26, T27, T28, T29,)) -> (r: Self) {
        tuple
    }
}

/// Resolves a group of 30 to whatever shape the call site expects.
pub fn convert_tuple_30<T0, T1, T2, T3, T4, T5, T6, T7, T8, T9, T10, T11, T12, T13, T14, T15, T16, T17, T18, T19, T20, T21, T22, T23, T24, T25, T26, T27, T28, T29, Out: FromTuple<(T0, T1, T2, T3, T4, T5, T6, T7, T8, T9, T10, T11, T12, T13, T14, T15, T16, T17, T18, T19, T20, T21, T22, T23, T24, T25, T26, T27, T28, T29,)>>(tuple: (T0, T1, T2, T3, T4, T5, T6, T7, T8, T9, T10, T11, T12, T13, T14, T15, T16, T17, T18, T19, T20, T21, T22, T23, T24, T25, T26, T27, T28, T29,)) -> (r: Out)
    ensures
        r == Out::built_from(tuple),
{
    Out::from_tuple(tuple)
}

impl<T> FromTuple<(T, T, T, T, T, T, T, T, T, T, T, T, T, T, T, T, T, T, T, T, T, T, T, T, T, T, T, T, T, T, T,)> for [T; 31] {
    open spec fn built_from(tuple: (T, T, T, T, T, T, T, T, T, T, T, T, T, T, T, T, T, T, T, T, T, T, T, T, T, T, T, T, T, T, T,)) -> Self {
        [tuple.0, tuple.1, tuple.2, tuple.3, tuple.4, tuple.5, tuple.6, tuple.7, tuple.8, tuple.9, tuple.10, tuple.11, tuple.12, tuple.13, tuple.14, tuple.15, tuple.16, tuple.17, tuple.18, tuple.19, tuple.20, tuple.21, tuple.22, tuple.23, tuple.24, tuple.25, tuple.26, tuple.27, tuple.28, tuple.29, tuple.30]
    }

    fn from_tuple(tuple: (T, T, T, T, T, T, T, T, T, T, T, T, T, T, T, T, T, T, T, T, T, T, T, T, T, T, T, T, T, T, T,)) -> (r: Self) {
        [tuple.0, tuple.1, tuple.2, tuple.3, tuple.4, tuple.5, tuple.6, tuple.7, tuple.8, tuple.9, tuple.10, tuple.11, tuple.12, tuple.13, tuple.14, tuple.15, tuple.16, tuple.17, tuple.18, tuple.19, tuple.20, tuple.21, tuple.22, tuple.23, tuple.24, tuple.25, tuple.26, tuple.27, tuple.28, tuple.29, tuple.30]
    }
}

impl<T0, T1, T2, T3, T4, T5, T6, T7, T8, T9, T10, T11, T12, T13, T14, T15, T16, T17, T18, T19, T20, T21, T22, T23, T24, T25, T26, T27, T28, T29, T30> FromTuple<(T0, T1, T2, T3, T4, T5, T6, T7, T8, T9, T10, T11, T12, T13, T14, T15, T16, T17, T18, T19, T20, T21, T22, T23, T24, T25, T26, T27, T28, T29, T30,)> for (T0, T1, T2, T3, T4, T5, T6, T7, T8, T9, T10, T11, T12, T13, T14, T15, T16, T17, T18, T19, T20, T21, T22, T23, T24, T25, T26, T27, T28, T29, T30,) {
    open spec fn built_from(tuple: (T0, T1, T2, T3, T4, T5, T6, T7, T8, T9, T10, T11, T12, T13, T14, T15, T16, T17, T18, T19, T20, T21, T22, T23, T24, T25, T26, T27, T28, T29, T30,)) -> Self {
        tuple
    }

    fn from_tuple(tuple: (T0, T1, T2, T3, T4, T5, T6, T7, T8, T9, T10, T11, T12, T13, T14, T15, T16, T17, T18, T19, T20, T21, T22, T23, T24, T25, T26, T27, T28, T29, T30,)) -> (r: Self) {
        tuple
    }
}

/// Resolves a group of 31 to whatever shape the call site expects.
pub fn convert_tuple_31<T0, T1, T2, T3, T4, T5, T6, T7, T8, T9, T10, T11, T12, T13, T14, T15, T16, T17, T18, T19, T20, T21, T22, T23, T24, T25, T26, T27, T28, T29, T30, Out: FromTuple<(T0, T1, T2, T3, T4, T5, T6, T7, T8, T9, T10, T11, T12, T13, T14, T15, T16, T17, T18, T19, T20, T21, T22, T23, T24, T25, T26, T27, T28, T29, T30,)>>(tuple: (T0, T1, T2, T3, T4, T5, T6, T7, T8, T9, T10, T11, T12, T13, T14, T15, T16, T17, T18, T19, T20, T21, T22, T23, T24, T25, T26, T27, T28, T29, T30,)) -> (r: Out)
    ensures
        r == Out::built_from(tuple),
{
    Out::from_tuple(tuple)
}

impl<T> FromTuple<(T, T, T, T, T, T, T, T, T, T, T, T, T, T, T, T, T, T, T, T, T, T, T, T, T, T, T, T, T, T, T, T,)> for [T; 32] {
    open spec fn built_from(tuple: (T, T, T, T, T, T, T, T, T, T, T, T, T, T, T, T, T, T, T, T, T, T, T, T, T, T, T, T, T, T, T, T,)) -> Self {
        [tuple.0, tuple.1, tuple.2, tuple.3, tuple.4, tuple.5, tuple.6, tuple.7, tuple.8, tuple.9, tuple.10, tuple.11, tuple.12, tuple.13, tuple.14, tuple.15, tuple.16, tuple.17, tuple.18, tuple.19, tuple.20, tuple.21, tuple.22, tuple.23, tuple.24, tuple.25, tuple.26, tuple.27, tuple.28, tuple.29, tuple.30, tuple.31]
    }

    fn from_tuple(tuple: (T, T, T, T, T, T, T, T, T, T, T, T, T, T, T, T, T, T, T, T, T, T, T, T, T, T, T, T, T, T, T, T,)) -> (r: Self) {
        [tuple.0, tuple.1, tuple.2, tuple.3, tuple.4, tuple.5, tuple.6, tuple.7, tuple.8, tuple.9, tuple.10, tuple.11, tuple.12, tuple.13, tuple.14, tuple.15, tuple.16, tuple.17, tuple.18, tuple.19, tuple.20, tuple.21, tuple.22, tuple.23, tuple.24, tuple.25, tuple.26, tuple.27, tuple.28, tuple.29, tuple.30, tuple.31]
    }
}

impl<T0, T1, T2, T3, T4, T5, T6, T7, T8, T9, T10, T11, T12, T13, T14, T15, T16, T17, T18, T19, T20, T21, T22, T23, T24, T25, T26, T27, T28, T29, T30, T31> FromTuple<(T0, T1, T2, T3, T4, T5, T6, T7, T8, T9, T10, T11, T12, T13, T14, T15, T16, T17, T18, T19, T20, T21, T22, T23, T24, T25, T26, T27, T28, T29, T30, T31,)> for (T0, T1, T2, T3, T4, T5, T6, T7, T8, T9, T10, T11, T12, T13, T14, T15, T16, T17, T18, T19, T20, T21, T22, T23, T24, T25, T26, T27, T28, T29, T30, T31,) {
    open spec fn built_from(tuple: (T0, T1, T2, T3, T4, T5, T6, T7, T8, T9, T10, T11, T12, T13, T14, T15, T16, T17, T18, T19, T20, T21, T22, T23, T24, T25, T26, T27, T28, T29, T30, T31,)) -> Self {
        tuple
    }

    fn from_tuple(tuple: (T0, T1, T2, T3, T4, T5, T6, T7, T8, T9, T10, T11, T12, T13, T14, T15, T16, T17, T18, T19, T20, T21, T22, T23, T24, T25, T26, T27, T28, T29, T30, T31,)) -> (r: Self) {
        tuple
    }
}

/// Resolves a group of 32 to whatever shape the call site expects.
pub fn convert_tuple_32<T0, T1, T2, T3, T4, T5, T6, T7, T8, T9, T10, T11, T12, T13, T14, T15, T16, T17, T18, T19, T20, T21, T22, T23, T24, T25, T26, T27, T28, T29, T30, T31, Out: FromTuple<(T0, T1, T2, T3, T4, T5, T6, T7, T8, T9, T10, T11, T12, T13, T14, T15, T16, T17, T18, T19, T20, T21, T22, T23, T24, T25, T26, T27, T28, T29, T30, T31,)>>(tuple: (T0, T1, T2, T3, T4, T5, T6, T7, T8, T9, T10, T11, T12, T13, T14, T15, T16, T17, T18, T19, T20, T21, T22, T23, T24, T25, T26, T27, T28, T29, T30, T31,)) -> (r: Out)
    ensures
        r == Out::built_from(tuple),
{
    Out::from_tuple(tuple)
}

} // verus!
