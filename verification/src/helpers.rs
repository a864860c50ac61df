//! Generation of the arity dispatch text.
//!
//! Emitted fixed-length groups resolve through a small generated runtime: a
//! capability trait, one implementation that unpacks a group into an array of
//! one element type, one that keeps it as the tuple it already is, and a free
//! dispatch function.  These functions write that runtime, for one arity, as
//! source text; [`runtime_text`] is the exact text they produce.

use vstd::prelude::*;

use crate::error::CoronaError;
use crate::ser::{lemma_err_close, lemma_err_stop, lemma_prefix_extend, lemma_prefix_refl};
use crate::sink::Sink;
use crate::text::{dec_digits, push_dec_u128};

verus! {

/// The element-type list of the homogeneous tuple type: one `T,` per slot.
pub open spec fn tcomma_repeat(n: nat) -> Seq<char>
    decreases n,
{
    if n == 0 {
        Seq::<char>::empty()
    } else {
        tcomma_repeat((n - 1) as nat) + "T,"@
    }
}

/// The homogeneous tuple type of one element type: `(T,T,…,T,)`.
pub open spec fn tuple_ty_text(n: nat) -> Seq<char> {
    "("@ + tcomma_repeat(n) + ")"@
}

/// The array type of that arity: `[T; n]`.
pub open spec fn array_ty_text(n: nat) -> Seq<char> {
    "[T; "@ + dec_digits(n) + "]"@
}

/// The positional unpacking list: `tuple.0,tuple.1,…`.
pub open spec fn mapping_items(n: nat) -> Seq<char>
    decreases n,
{
    if n == 0 {
        Seq::<char>::empty()
    } else if n == 1 {
        "tuple."@ + dec_digits(0)
    } else {
        mapping_items((n - 1) as nat) + ","@ + "tuple."@ + dec_digits((n - 1) as nat)
    }
}

/// The array literal that unpacks the group: `[tuple.0,…,tuple.(n-1)]`.
pub open spec fn mapping_text(n: nat) -> Seq<char> {
    "["@ + mapping_items(n) + "]"@
}

/// The independent type parameter list: `T0,T1,…`.
pub open spec fn types_items(n: nat) -> Seq<char>
    decreases n,
{
    if n == 0 {
        Seq::<char>::empty()
    } else if n == 1 {
        "T"@ + dec_digits(0)
    } else {
        types_items((n - 1) as nat) + ","@ + "T"@ + dec_digits((n - 1) as nat)
    }
}

/// The trait declaration the generated runtime opens with.
pub open spec fn trait_text() -> Seq<char> {
    "\n        trait FromTuple<T>: Sized {\n            fn from_tuple(tuple: T) -> Self;\n        }\n    "@
}

/// The implementation that unpacks the group into an array of one element
/// type, slot by slot.
pub open spec fn impl_array_text(n: nat) -> Seq<char> {
    "\n            impl<T> FromTuple<"@ + tuple_ty_text(n) + "> for "@ + array_ty_text(n)
        + " {\n                #[inline]\n                fn from_tuple(tuple: "@ + tuple_ty_text(
        n,
    ) + ") -> Self {\n                    "@ + mapping_text(n)
        + "\n                }\n            }\n        "@
}

/// The implementation that keeps the group as the tuple it already is, and
/// the free dispatch function that resolves the target shape by type.
pub open spec fn impl_tuple_text(n: nat) -> Seq<char> {
    "\n            impl<"@ + types_items(n) + "> FromTuple<("@ + types_items(n) + ",)> for ("@
        + types_items(n)
        + ",) {\n                #[inline]\n                fn from_tuple(tuple: ("@ + types_items(
        n,
    )
        + ",)) -> Self {\n                    tuple\n                }\n            }\n\n            #[inline]\n            fn convert<"@
        + types_items(n) + ", Out: FromTuple<("@ + types_items(n) + ",)>>(tuple: ("@
        + types_items(n)
        + ",)) -> Out {\n                Out::from_tuple(tuple)\n            }\n        "@
}

/// The zero-arity runtime: a direct conversion to the empty array, the one
/// shape an empty group can take.
pub open spec fn zero_text() -> Seq<char> {
    "\n        #[inline]\n        fn convert<T>(_: ()) -> [T; 0] {\n            []\n        }\n    "@
}

/// The runtime for one nonzero arity: the trait and its two implementations
/// with the dispatch function.
pub open spec fn nonzero_text(n: nat) -> Seq<char> {
    trait_text() + impl_array_text(n) + impl_tuple_text(n)
}

/// The whole runtime text for one arity.
pub open spec fn runtime_text(n: nat) -> Seq<char> {
    if n == 0 {
        zero_text()
    } else {
        nonzero_text(n)
    }
}

/// The type parameter list `T0,T1,…` for one arity, as a string.
fn build_types(len: usize) -> (s: String)
    ensures
        s@ == types_items(len as nat),
{
    let mut s = String::new();
    proof {
        assert(s@ =~= types_items(0));
    }
    let mut i: usize = 0;
    while i < len
        invariant
            i <= len,
            s@ == types_items(i as nat),
        decreases len - i,
    {
        if i > 0 {
            s.append(",");
        }
        s.append("T");
        push_dec_u128(&mut s, i as u128);
        proof {
            assert(s@ =~= types_items((i + 1) as nat));
        }
        i = i + 1;
    }
    s
}

/// The unpacking list `tuple.0,tuple.1,…` for one arity, as a string.
fn build_mapping_items(len: usize) -> (s: String)
    ensures
        s@ == mapping_items(len as nat),
{
    let mut s = String::new();
    proof {
        assert(s@ =~= mapping_items(0));
    }
    let mut i: usize = 0;
    while i < len
        invariant
            i <= len,
            s@ == mapping_items(i as nat),
        decreases len - i,
    {
        if i > 0 {
            s.append(",");
        }
        s.append("tuple.");
        push_dec_u128(&mut s, i as u128);
        proof {
            assert(s@ =~= mapping_items((i + 1) as nat));
        }
        i = i + 1;
    }
    s
}

/// The homogeneous tuple type `(T,T,…,T,)` for one arity, as a string.
fn build_tuple_ty(len: usize) -> (s: String)
    ensures
        s@ == tuple_ty_text(len as nat),
{
    let mut s = String::from_str("(");
    let mut i: usize = 0;
    proof {
        assert(s@ =~= "("@ + tcomma_repeat(0));
    }
    while i < len
        invariant
            i <= len,
            s@ == "("@ + tcomma_repeat(i as nat),
        decreases len - i,
    {
        s.append("T,");
        proof {
            assert(s@ =~= "("@ + tcomma_repeat((i + 1) as nat));
        }
        i = i + 1;
    }
    s.append(")");
    s
}

/// Writes the runtime for arity zero.
pub fn zero_size<S: Sink>(output: &mut S) -> (r: Result<(), CoronaError>)
    ensures
        r is Ok ==> final(output).content() == old(output).content() + zero_text(),
        r is Err ==> final(output).content() == old(output).content(),
        r is Err ==> (r matches Err(CoronaError::Io(_))),
        final(output).infallible() == old(output).infallible(),
        old(output).infallible() ==> r is Ok,
{
    output.write_str(
        "\n        #[inline]\n        fn convert<T>(_: ()) -> [T; 0] {\n            []\n        }\n    ",
    )
}

/// Writes the runtime for one nonzero arity: the capability trait, the
/// array-unpacking implementation, the tuple-identity implementation, and
/// the free dispatch function.
pub fn non_zero_size<S: Sink>(output: &mut S, len: usize) -> (r: Result<(), CoronaError>)
    requires
        len >= 1,
    ensures
        r is Ok ==> final(output).content() == old(output).content() + nonzero_text(
            len as nat,
        ),
        r is Err ==> old(output).content().is_prefix_of(final(output).content()) && final(output).content().is_prefix_of(old(output).content() + nonzero_text(len as nat)),
        r is Err ==> (r matches Err(CoronaError::Io(_))),
        final(output).infallible() == old(output).infallible(),
        old(output).infallible() ==> r is Ok,
{
    match output.write_str(
        "\n        trait FromTuple<T>: Sized {\n            fn from_tuple(tuple: T) -> Self;\n        }\n    ",
    ) {
        Ok(()) => {},
        Err(e) => {
            proof {
                lemma_err_stop(old(output).content(), nonzero_text(len as nat), Seq::<
                    char,
                >::empty());
            }
            return Err(e);
        },
    }
    let tuple_ty = build_tuple_ty(len);
    let array_ty = {
        let mut a = String::from_str("[T; ");
        push_dec_u128(&mut a, len as u128);
        a.append("]");
        a
    };
    let mapping = {
        let mut m = String::from_str("[");
        let items = build_mapping_items(len);
        m.append(items.as_str());
        m.append("]");
        m
    };
    let mut w = String::from_str("\n            impl<T> FromTuple<");
    w.append(tuple_ty.as_str());
    w.append("> for ");
    w.append(array_ty.as_str());
    w.append(" {\n                #[inline]\n                fn from_tuple(tuple: ");
    w.append(tuple_ty.as_str());
    w.append(") -> Self {\n                    ");
    w.append(mapping.as_str());
    w.append("\n                }\n            }\n        ");
    match output.write_str(w.as_str()) {
        Ok(()) => {},
        Err(e) => {
            proof {
                assert(nonzero_text(len as nat) == trait_text() + (impl_array_text(len as nat)
                    + impl_tuple_text(len as nat))) by {
                    assert(nonzero_text(len as nat) =~= trait_text() + (impl_array_text(
                        len as nat,
                    ) + impl_tuple_text(len as nat)));
                }
                lemma_err_close(
                    old(output).content(),
                    trait_text(),
                    impl_array_text(len as nat) + impl_tuple_text(len as nat),
                    nonzero_text(len as nat),
                );
            }
            return Err(e);
        },
    }
    let types = build_types(len);
    let mut z = String::from_str("\n            impl<");
    z.append(types.as_str());
    z.append("> FromTuple<(");
    z.append(types.as_str());
    z.append(",)> for (");
    z.append(types.as_str());
    z.append(
        ",) {\n                #[inline]\n                fn from_tuple(tuple: (",
    );
    z.append(types.as_str());
    z.append(
        ",)) -> Self {\n                    tuple\n                }\n            }\n\n            #[inline]\n            fn convert<",
    );
    z.append(types.as_str());
    z.append(", Out: FromTuple<(");
    z.append(types.as_str());
    z.append(",)>>(tuple: (");
    z.append(types.as_str());
    z.append(
        ",)) -> Out {\n                Out::from_tuple(tuple)\n            }\n        ",
    );
    match output.write_str(z.as_str()) {
        Ok(()) => {},
        Err(e) => {
            proof {
                assert(output.content() =~= old(output).content() + (trait_text()
                    + impl_array_text(len as nat)));
                lemma_err_close(
                    old(output).content(),
                    trait_text() + impl_array_text(len as nat),
                    impl_tuple_text(len as nat),
                    nonzero_text(len as nat),
                );
            }
            return Err(e);
        },
    }
    proof {
        assert(output.content() =~= old(output).content() + nonzero_text(len as nat));
    }
    Ok(())
}

/// Writes the group-dispatch runtime for one arity.
pub fn tuple_converter<S: Sink>(output: &mut S, len: usize) -> (r: Result<(), CoronaError>)
    ensures
        r is Ok ==> final(output).content() == old(output).content() + runtime_text(len as nat),
        r is Err ==> old(output).content().is_prefix_of(final(output).content()) && final(output).content().is_prefix_of(old(output).content() + runtime_text(len as nat)),
        r is Err ==> (r matches Err(CoronaError::Io(_))),
        final(output).infallible() == old(output).infallible(),
        old(output).infallible() ==> r is Ok,
{
    if len > 0 {
        non_zero_size(output, len)
    } else {
        let r = zero_size(output);
        proof {
            if r is Err {
                lemma_prefix_refl(old(output).content());
                lemma_prefix_extend(old(output).content(), runtime_text(len as nat));
            }
        }
        r
    }
}

} // verus!
