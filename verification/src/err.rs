//! The error model: the codec's own failures beside errors that a caller
//! makes from a message.

use vstd::prelude::*;

verus! {

broadcast use vstd::string::to_string_from_display_ensures_for_str;

/// `either::Either`, which pairs the codec's own failure (left) with the
/// transport's (right). Its two variants are read as they are declared.
#[verifier::external_type_specification]
#[verifier::reject_recursive_types(L)]
#[verifier::reject_recursive_types(R)]
pub struct ExEither<L, R>(either::Either<L, R>);

/// The character of the decimal digit `d`.
pub open spec fn digit(d: nat) -> char {
    ((48 + d) as u8) as char
}

/// The decimal digits of `n`, most significant first, with no sign and no
/// leading zero.
pub open spec fn decimal(n: nat) -> Seq<char>
    decreases n,
{
    if n < 10 {
        seq![digit(n)]
    } else {
        decimal(n / 10).push(digit(n % 10))
    }
}

/// `format!("{}", n)`, which is std's `Display` for `u64`: the number in
/// decimal digits, with no sign and no padding.
#[verifier::external_body]
pub(crate) fn decimal_text(n: u64) -> (r: String)
    ensures
        r@ == decimal(n as nat),
{
    format!("{}", n)
}

/// A value that can be made from a message alone.
///
/// An implementation may keep the message or drop it; `collects` says which
/// values it may make of a message.
pub trait DisplayCollector: Sized {
    /// Whether `out` is a value that `display` may make of `msg`.
    open spec fn collects(msg: Seq<char>, out: Self) -> bool {
        arbitrary()
    }

    /// Makes a value of the message.
    fn display(msg: &str) -> (r: Self)
        ensures
            Self::collects(msg@, r),
    ;
}

/// A `String` keeps the message as it is.
impl DisplayCollector for String {
    open spec fn collects(msg: Seq<char>, out: String) -> bool {
        out@ == msg
    }

    fn display(msg: &str) -> (r: String) {
        msg.to_string()
    }
}

/// Either a failure of the codec or its transport, or an error that the
/// caller made from a message.
#[derive(Debug)]
pub enum ErrorAdapter<E, D> where D: DisplayCollector {
    /// A failure of the codec itself or of the transport under it.
    Inner(E),
    /// An error made from a message.
    Other(D),
}

impl<E, D> ErrorAdapter<E, D> where D: DisplayCollector {
    /// The error that stands for `msg`: always the `Other` arm, holding what
    /// the collector makes of the message.
    pub fn custom(msg: &str) -> (r: Self)
        ensures
            r matches ErrorAdapter::Other(d) && D::collects(msg@, d),
    {
        ErrorAdapter::Other(D::display(msg))
    }

    /// The text of the error: what `inner` says of a failure of the codec or
    /// the transport, what `other` says of an error made from a message.
    pub fn message<F, G>(&self, inner: F, other: G) -> (r: String) where
        F: FnOnce(&E) -> String,
        G: FnOnce(&D) -> String,

        requires
            match self {
                ErrorAdapter::Inner(e) => call_requires(inner, (e,)),
                ErrorAdapter::Other(d) => call_requires(other, (d,)),
            },
        ensures
            match self {
                ErrorAdapter::Inner(e) => call_ensures(inner, (e,), r),
                ErrorAdapter::Other(d) => call_ensures(other, (d,), r),
            },
    {
        match self {
            ErrorAdapter::Inner(e) => inner(e),
            ErrorAdapter::Other(d) => other(d),
        }
    }
}

} // verus!
