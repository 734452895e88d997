//! Laws of evaluation, stated over the mathematical model and proved.

use crate::eval::{eval, judged, verdict, Expr, SpecifierView};
use vstd::prelude::*;

verus! {

/// A triple whose vendor is `unknown` and whose system is `linux` matches,
/// whatever its architecture and environment.
pub proof fn unknown_linux_triple_matches(specifier: SpecifierView)
    requires
        specifier is Triple,
        specifier->vendor == "unknown"@,
        specifier->os == "linux"@,
    ensures
        verdict(specifier) == Ok::<bool, Seq<char>>(true),
        judged(Ok(specifier)) == Ok::<bool, Seq<char>>(true),
{
}

/// A triple with any other vendor, or any other system, does not match.
pub proof fn other_triple_does_not_match(specifier: SpecifierView)
    requires
        specifier is Triple,
        specifier->vendor != "unknown"@ || specifier->os != "linux"@,
    ensures
        verdict(specifier) == Ok::<bool, Seq<char>>(false),
        judged(Ok(specifier)) == Ok::<bool, Seq<char>>(false),
{
}

/// Negating twice gives back the outcome of the expression itself: its
/// verdict where it has one, and its failure where it fails.
pub proof fn double_negation(expr: Expr)
    ensures
        eval(Expr::Not(Box::new(Expr::Not(Box::new(expr))))) == eval(expr),
{
    let once = Expr::Not(Box::new(expr));
    assert(eval(once) == match eval(expr) {
        Ok(truth) => Ok::<bool, Seq<char>>(!truth),
        Err(message) => Err(message),
    });
}

/// `any` never fails, and is true exactly when some child evaluates to
/// true; a child that fails counts as false.
pub proof fn any_never_fails(children: Seq<Expr>)
    ensures
        eval(Expr::Any(children)) is Ok,
        eval(Expr::Any(children)) == Ok::<bool, Seq<char>>(true) <==> exists|i: int|
            0 <= i < children.len() && eval(#[trigger] children[i]) == Ok::<bool, Seq<char>>(true),
{
}

/// `all` never fails, and is true exactly when every child evaluates to
/// true; one child that fails makes it false.
pub proof fn all_never_fails(children: Seq<Expr>)
    ensures
        eval(Expr::All(children)) is Ok,
        eval(Expr::All(children)) == Ok::<bool, Seq<char>>(true) <==> forall|i: int|
            0 <= i < children.len() ==> eval(#[trigger] children[i]) == Ok::<bool, Seq<char>>(true),
        forall|i: int|
            0 <= i < children.len() && eval(#[trigger] children[i]) is Err ==> eval(
                Expr::All(children),
            ) == Ok::<bool, Seq<char>>(false),
{
}

} // verus!
