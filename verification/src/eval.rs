//! Evaluation of target specifiers against the reference platform: a
//! Unix-family Linux with the `gnu` environment, built in release mode with
//! tests and proc-macro support enabled.
//!
//! Two fixed tables say what the platform answers: [`flag_rule`] for
//! attributes compared with a value, [`option_rule`] for bare options. A name
//! in neither table is refused, not guessed. [`eval`] defines evaluation over
//! expressions; [`evaluate`] computes it. Text becomes an expression through
//! `parse_cfg`, whose result is taken on trust and named [`parsed_target`].

use crate::text::{same_text, texts_of};
use vstd::prelude::*;
use vstd::string::*;

verus! {

/// A conditional expression over platform attributes.
#[derive(Debug, PartialEq, Eq)]
pub enum Predicate {
    /// True when at least one child is true.
    Any(Vec<Predicate>),
    /// True when every child is true.
    All(Vec<Predicate>),
    /// True when the child is false.
    Not(Box<Predicate>),
    /// Compares the named attribute with a literal value.
    Equal(String, String),
    /// Asks whether the named option is set.
    Is(String),
}

/// The mathematical value of a [`Predicate`].
pub ghost enum Expr {
    Any(Seq<Expr>),
    All(Seq<Expr>),
    Not(Box<Expr>),
    Equal(Seq<char>, Seq<char>),
    Is(Seq<char>),
}

/// The expression that a [`Predicate`] stands for.
pub open spec fn expr_of(predicate: Predicate) -> Expr
    decreases predicate,
{
    match predicate {
        Predicate::Any(list) => Expr::Any(exprs_of(list@)),
        Predicate::All(list) => Expr::All(exprs_of(list@)),
        Predicate::Not(inner) => Expr::Not(Box::new(expr_of(*inner))),
        Predicate::Equal(name, value) => Expr::Equal(name@, value@),
        Predicate::Is(name) => Expr::Is(name@),
    }
}

/// The expressions that a list of [`Predicate`] stands for, in order.
pub open spec fn exprs_of(list: Seq<Predicate>) -> Seq<Expr>
    decreases list,
{
    Seq::new(list.len(), |i: int| if 0 <= i < list.len() { expr_of(list[i]) } else { arbitrary() })
}

impl View for Predicate {
    type V = Expr;

    open spec fn view(&self) -> Expr {
        expr_of(*self)
    }
}

impl Clone for Predicate {
    /// A copy that stands for the same expression.
    fn clone(&self) -> (copy: Self)
        ensures
            copy@ == self@,
        decreases self,
    {
        match self {
            Predicate::Any(list) => Predicate::Any(clone_list(list)),
            Predicate::All(list) => Predicate::All(clone_list(list)),
            Predicate::Not(inner) => Predicate::Not(Box::new((**inner).clone())),
            Predicate::Equal(name, value) => Predicate::Equal(name.clone(), value.clone()),
            Predicate::Is(name) => Predicate::Is(name.clone()),
        }
    }
}

/// Copies of the predicates of a list, in order.
fn clone_list(list: &Vec<Predicate>) -> (copies: Vec<Predicate>)
    ensures
        exprs_of(copies@) == exprs_of(list@),
    decreases list,
{
    let mut copies: Vec<Predicate> = Vec::new();
    let mut i: usize = 0;
    while i < list.len()
        invariant
            i <= list.len(),
            copies.len() == i,
            forall|j: int| 0 <= j < i ==> (#[trigger] copies[j])@ == list[j]@,
        decreases list.len() - i,
    {
        copies.push(list[i].clone());
        i += 1;
    }
    copies
}

/// What evaluation yields: a verdict, or the message of the failure.
pub type Outcome = Result<bool, Seq<char>>;

/// The value of an executable result.
pub open spec fn outcome_of(result: Result<bool, String>) -> Outcome {
    match result {
        Ok(verdict) => Ok(verdict),
        Err(message) => Err(message@),
    }
}

/// Operating systems that the reference platform is not.
pub open spec fn is_foreign_os(value: Seq<char>) -> bool {
    ||| value == "windows"@
    ||| value == "macos"@
    ||| value == "ios"@
    ||| value == "android"@
    ||| value == "freebsd"@
    ||| value == "dragonfly"@
    ||| value == "openbsd"@
    ||| value == "netbsd"@
    ||| value == "emscripten"@
}

/// Vendors that the reference platform is not.
pub open spec fn is_foreign_vendor(value: Seq<char>) -> bool {
    ||| value == "apple"@
    ||| value == "fortanix"@
    ||| value == "pc"@
}

/// The table of attributes that can be compared with a value: `Some` of the
/// verdict for a recognised name, `None` for any other.
pub open spec fn flag_rule(name: Seq<char>, value: Seq<char>) -> Option<bool> {
    if name == "target_arch"@ {
        Some(value != "wasm32"@)
    } else if name == "target_endian"@ {
        Some(true)
    } else if name == "target_env"@ {
        Some(value == ""@ || value == "gnu"@)
    } else if name == "target_family"@ {
        Some(value == "unix"@)
    } else if name == "target_feature"@ {
        Some(true)
    } else if name == "target_os"@ {
        Some(!is_foreign_os(value))
    } else if name == "target_pointer_width"@ {
        Some(true)
    } else if name == "target_vendor"@ {
        Some(!is_foreign_vendor(value))
    } else {
        None
    }
}

/// The table of bare options: `Some` of the fixed answer for a recognised
/// name, `None` for any other.
pub open spec fn option_rule(name: Seq<char>) -> Option<bool> {
    if name == "debug_assertions"@ {
        Some(false)
    } else if name == "test"@ {
        Some(true)
    } else if name == "proc_macro"@ {
        Some(true)
    } else if name == "unix"@ {
        Some(true)
    } else if name == "windows"@ {
        Some(false)
    } else {
        None
    }
}

/// The message for an attribute that [`flag_rule`] does not know.
pub open spec fn unrecognised_flag(name: Seq<char>) -> Seq<char> {
    "Unrecognised target flag: "@ + name
}

/// The message for an option that [`option_rule`] does not know.
pub open spec fn unrecognised_option(name: Seq<char>) -> Seq<char> {
    "Unrecognised target option: "@ + name
}

/// Whether an outcome counts as true inside `any` and `all`: a failure
/// counts as false.
pub open spec fn holds(outcome: Outcome) -> bool {
    outcome == Ok::<bool, Seq<char>>(true)
}

/// The outcome of evaluating an expression against the reference platform.
pub open spec fn eval(expr: Expr) -> Outcome
    decreases expr,
{
    match expr {
        Expr::Any(children) => Ok(
            exists|i: int| 0 <= i < children.len() && holds(eval(#[trigger] children[i])),
        ),
        Expr::All(children) => Ok(
            forall|i: int| 0 <= i < children.len() ==> holds(eval(#[trigger] children[i])),
        ),
        Expr::Not(inner) => match eval(*inner) {
            Ok(verdict) => Ok(!verdict),
            Err(message) => Err(message),
        },
        Expr::Equal(name, value) => match flag_rule(name, value) {
            Some(verdict) => Ok(verdict),
            None => Err(unrecognised_flag(name)),
        },
        Expr::Is(name) => match option_rule(name) {
            Some(verdict) => Ok(verdict),
            None => Err(unrecognised_option(name)),
        },
    }
}

/// Looks an attribute up in the table of comparable attributes.
pub fn lookup_flag(name: &str, value: &str) -> (rule: Option<bool>)
    ensures
        rule == flag_rule(name@, value@),
{
    if same_text(name, "target_arch") {
        Some(!same_text(value, "wasm32"))
    } else if same_text(name, "target_endian") {
        Some(true)
    } else if same_text(name, "target_env") {
        Some(same_text(value, "") || same_text(value, "gnu"))
    } else if same_text(name, "target_family") {
        Some(same_text(value, "unix"))
    } else if same_text(name, "target_feature") {
        Some(true)
    } else if same_text(name, "target_os") {
        let foreign = same_text(value, "windows") || same_text(value, "macos") || same_text(
            value,
            "ios",
        ) || same_text(value, "android") || same_text(value, "freebsd") || same_text(
            value,
            "dragonfly",
        ) || same_text(value, "openbsd") || same_text(value, "netbsd") || same_text(
            value,
            "emscripten",
        );
        Some(!foreign)
    } else if same_text(name, "target_pointer_width") {
        Some(true)
    } else if same_text(name, "target_vendor") {
        let foreign = same_text(value, "apple") || same_text(value, "fortanix") || same_text(
            value,
            "pc",
        );
        Some(!foreign)
    } else {
        None
    }
}

/// Looks a bare option up in the table of options.
pub fn lookup_option(name: &str) -> (rule: Option<bool>)
    ensures
        rule == option_rule(name@),
{
    if same_text(name, "debug_assertions") {
        Some(false)
    } else if same_text(name, "test") {
        Some(true)
    } else if same_text(name, "proc_macro") {
        Some(true)
    } else if same_text(name, "unix") {
        Some(true)
    } else if same_text(name, "windows") {
        Some(false)
    } else {
        None
    }
}

/// Evaluates an expression against the reference platform.
///
/// `any` and `all` look at every child and never fail: a child that fails
/// counts as false. `not` passes its child's failure on. A name that is in
/// neither table fails with a message that names it.
pub fn evaluate(predicate: &Predicate) -> (result: Result<bool, String>)
    ensures
        outcome_of(result) == eval(predicate@),
    decreases predicate,
{
    match predicate {
        Predicate::Any(list) => {
            let ghost children = exprs_of(list@);
            let mut found = false;
            let mut i: usize = 0;
            while i < list.len()
                invariant
                    predicate is Any,
                    predicate->Any_0 == *list,
                    children == exprs_of(list@),
                    i <= list.len(),
                    found == exists|j: int| 0 <= j < i && holds(eval(#[trigger] children[j])),
                decreases list.len() - i,
            {
                let child = evaluate(&list[i]);
                let hit = matches!(child, Ok(true));
                assert(hit == holds(eval(children[i as int])));
                found = found || hit;
                i += 1;
            }
            Ok(found)
        },
        Predicate::All(list) => {
            let ghost children = exprs_of(list@);
            let mut every = true;
            let mut i: usize = 0;
            while i < list.len()
                invariant
                    predicate is All,
                    predicate->All_0 == *list,
                    children == exprs_of(list@),
                    i <= list.len(),
                    every == forall|j: int| 0 <= j < i ==> holds(eval(#[trigger] children[j])),
                decreases list.len() - i,
            {
                let child = evaluate(&list[i]);
                let hit = matches!(child, Ok(true));
                assert(hit == holds(eval(children[i as int])));
                every = every && hit;
                i += 1;
            }
            Ok(every)
        },
        Predicate::Not(inner) => match evaluate(inner) {
            Ok(verdict) => Ok(!verdict),
            Err(message) => Err(message),
        },
        Predicate::Equal(name, value) => match lookup_flag(name.as_str(), value.as_str()) {
            Some(verdict) => Ok(verdict),
            None => Err(String::from_str("Unrecognised target flag: ").concat(name.as_str())),
        },
        Predicate::Is(name) => match lookup_option(name.as_str()) {
            Some(verdict) => Ok(verdict),
            None => Err(String::from_str("Unrecognised target option: ").concat(name.as_str())),
        },
    }
}

/// The failure of an outcome as a list: one message, or none.
pub open spec fn failure_of(outcome: Outcome) -> Seq<Seq<char>> {
    match outcome {
        Ok(_) => Seq::empty(),
        Err(message) => seq![message],
    }
}

/// The failures that evaluation passes over without failing itself: those of
/// the children of `any` and `all`, at any depth, in the order in which the
/// children are written. A child's own swallowed failures come before the
/// failure of the child.
pub open spec fn swallowed(expr: Expr) -> Seq<Seq<char>>
    decreases expr,
{
    match expr {
        Expr::Any(children) => swallowed_among(children),
        Expr::All(children) => swallowed_among(children),
        Expr::Not(inner) => swallowed(*inner),
        Expr::Equal(_, _) => Seq::empty(),
        Expr::Is(_) => Seq::empty(),
    }
}

/// What a list of children contributes to [`swallowed`].
pub open spec fn swallowed_among(children: Seq<Expr>) -> Seq<Seq<char>>
    decreases children,
{
    if children.len() == 0 {
        Seq::empty()
    } else {
        swallowed_among(children.drop_last()) + swallowed(children.last()) + failure_of(
            eval(children.last()),
        )
    }
}

/// Appends to `log` the failures that evaluating `predicate` passes over.
fn collect_diagnostics(predicate: &Predicate, log: &mut Vec<String>)
    ensures
        texts_of(final(log)@) == texts_of(old(log)@) + swallowed(predicate@),
    decreases predicate, 1nat,
{
    match predicate {
        Predicate::Any(list) => {
            collect_among(list, log);
        },
        Predicate::All(list) => {
            collect_among(list, log);
        },
        Predicate::Not(inner) => {
            collect_diagnostics(inner, log);
        },
        Predicate::Equal(_, _) => {},
        Predicate::Is(_) => {},
    }
}

/// Appends to `log` what the children in `list` contribute.
fn collect_among(list: &Vec<Predicate>, log: &mut Vec<String>)
    ensures
        texts_of(final(log)@) == texts_of(old(log)@) + swallowed_among(exprs_of(list@)),
    decreases list, 0nat,
{
    let ghost children = exprs_of(list@);
    let mut i: usize = 0;
    while i < list.len()
        invariant
            children == exprs_of(list@),
            i <= list.len(),
            texts_of(log@) == texts_of(old(log)@) + swallowed_among(children.take(i as int)),
        decreases list.len() - i,
    {
        collect_diagnostics(&list[i], log);
        let ghost between = log@;
        if let Err(message) = evaluate(&list[i]) {
            log.push(message);
        }
        proof {
            let prefix = children.take(i as int + 1);
            assert(prefix.drop_last() == children.take(i as int));
            assert(texts_of(log@) == texts_of(between) + failure_of(eval(children[i as int])));
        }
        i += 1;
    }
    assert(children.take(i as int) == children);
}

/// The failures that [`evaluate`] passes over on `predicate`, for the caller
/// to report.
pub fn diagnostics(predicate: &Predicate) -> (log: Vec<String>)
    ensures
        texts_of(log@) == swallowed(predicate@),
{
    let mut log: Vec<String> = Vec::new();
    collect_diagnostics(predicate, &mut log);
    log
}

/// A parsed target specifier: a target triple, or a conditional expression.
#[derive(Debug, PartialEq, Eq)]
pub enum Specifier {
    /// `arch-vendor-os`, with an optional `-env` behind it.
    Triple { arch: String, vendor: String, os: String, env: Option<String> },
    /// `cfg(..)` around an expression.
    Expression(Predicate),
}

/// The mathematical value of a [`Specifier`].
pub ghost enum SpecifierView {
    Triple { arch: Seq<char>, vendor: Seq<char>, os: Seq<char>, env: Option<Seq<char>> },
    Expression(Expr),
}

impl View for Specifier {
    type V = SpecifierView;

    open spec fn view(&self) -> SpecifierView {
        match self {
            Specifier::Triple { arch, vendor, os, env } => SpecifierView::Triple {
                arch: arch@,
                vendor: vendor@,
                os: os@,
                env: match env {
                    Some(name) => Some(name@),
                    None => None,
                },
            },
            Specifier::Expression(predicate) => SpecifierView::Expression(predicate@),
        }
    }
}

impl Clone for Specifier {
    /// A copy that stands for the same specifier.
    fn clone(&self) -> (copy: Self)
        ensures
            copy@ == self@,
    {
        match self {
            Specifier::Triple { arch, vendor, os, env } => Specifier::Triple {
                arch: arch.clone(),
                vendor: vendor.clone(),
                os: os.clone(),
                env: match env {
                    Some(name) => Some(name.clone()),
                    None => None,
                },
            },
            Specifier::Expression(predicate) => Specifier::Expression(predicate.clone()),
        }
    }
}

/// What parsing yields: a specifier, or the parser's diagnostic.
pub type Parse = Result<SpecifierView, Seq<char>>;

/// The value of an executable parse result.
pub open spec fn parse_of(result: Result<Specifier, String>) -> Parse {
    match result {
        Ok(specifier) => Ok(specifier@),
        Err(diagnostic) => Err(diagnostic@),
    }
}

/// What `parse_cfg::parse_target` makes of a text: the specifier it reads,
/// or the text of its diagnostic. The grammar is the parser's own and is not
/// restated here.
pub uninterp spec fn parsed_target(text: Seq<char>) -> Parse;

/// `parse_cfg::Cfg`, the parser's expression tree, which only
/// [`predicate_from_parsed`] takes apart.
#[verifier::external_type_specification]
#[verifier::external_body]
pub struct ExParsedCfg(parse_cfg::Cfg);

/// Moves an expression tree of `parse_cfg` into a [`Predicate`], node for
/// node.
///
/// Trusted, and only ever a step of [`parse_target`], whose contract covers
/// it: each variant of `parse_cfg::Cfg` becomes the variant of the same name
/// with the same fields, children in the same order.
#[verifier::external_body]
fn predicate_from_parsed(parsed: parse_cfg::Cfg) -> Predicate {
    match parsed {
        parse_cfg::Cfg::Any(list) => Predicate::Any(
            list.into_iter().map(predicate_from_parsed).collect(),
        ),
        parse_cfg::Cfg::All(list) => Predicate::All(
            list.into_iter().map(predicate_from_parsed).collect(),
        ),
        parse_cfg::Cfg::Not(inner) => Predicate::Not(Box::new(predicate_from_parsed(*inner))),
        parse_cfg::Cfg::Equal(name, value) => Predicate::Equal(name, value),
        parse_cfg::Cfg::Is(name) => Predicate::Is(name),
    }
}

/// Parses a target specifier with `parse_cfg::parse_target`.
///
/// Trusted: the result is the parser's, which depends on the text alone. A
/// parsed triple or expression arrives with the parser's own fields; a
/// rejected text arrives as the `Display` text of the parser's error. The
/// parser recurses once per level of nesting and sets no limit of its own.
#[verifier::external_body]
fn parse_target(text: &str) -> (parsed: Result<Specifier, String>)
    ensures
        parse_of(parsed) == parsed_target(text@),
{
    match parse_cfg::parse_target(text) {
        Ok(parse_cfg::Target::Triple { arch, vendor, os, env }) => Ok(
            Specifier::Triple { arch, vendor, os, env },
        ),
        Ok(parse_cfg::Target::Cfg(tree)) => Ok(Specifier::Expression(predicate_from_parsed(tree))),
        Err(error) => Err(error.to_string()),
    }
}

/// The verdict on a specifier: a triple matches when its vendor is
/// `unknown` and its system is `linux`, whatever its architecture and
/// environment; an expression is evaluated.
pub open spec fn verdict(specifier: SpecifierView) -> Outcome {
    match specifier {
        SpecifierView::Triple { arch, vendor, os, env } => Ok(
            vendor == "unknown"@ && os == "linux"@,
        ),
        SpecifierView::Expression(expr) => eval(expr),
    }
}

/// The message for a text that is no target specifier.
pub open spec fn parse_failure(diagnostic: Seq<char>) -> Seq<char> {
    "Failed to parse target: "@ + diagnostic
}

/// The verdict on a parse result: that of the specifier, or the parse
/// failure.
pub open spec fn judged(parse: Parse) -> Outcome {
    match parse {
        Ok(specifier) => verdict(specifier),
        Err(diagnostic) => Err(parse_failure(diagnostic)),
    }
}

/// Parses a target specifier: a triple such as `x86_64-unknown-linux-gnu`,
/// or an expression such as `cfg(not(windows))`. A text that is neither
/// comes back as the parser's diagnostic.
pub fn parse_specifier(text: &str) -> (parsed: Result<Specifier, String>)
    ensures
        parse_of(parsed) == parsed_target(text@),
{
    parse_target(text)
}

/// Decides whether a specifier holds of the reference platform.
pub fn matches_reference(specifier: &Specifier) -> (result: Result<bool, String>)
    ensures
        outcome_of(result) == verdict(specifier@),
{
    match specifier {
        Specifier::Triple { arch, vendor, os, env } => Ok(
            same_text(vendor.as_str(), "unknown") && same_text(os.as_str(), "linux"),
        ),
        Specifier::Expression(predicate) => evaluate(predicate),
    }
}

/// Judges a parse result: a parsed specifier gets its verdict, a diagnostic
/// becomes a parse failure.
pub fn judge(parsed: Result<Specifier, String>) -> (result: Result<bool, String>)
    ensures
        outcome_of(result) == judged(parse_of(parsed)),
{
    match parsed {
        Ok(specifier) => matches_reference(&specifier),
        Err(diagnostic) => Err(
            String::from_str("Failed to parse target: ").concat(diagnostic.as_str()),
        ),
    }
}

/// Decides whether a target specifier names the reference Linux platform.
///
/// Fails when the text cannot be parsed, and when an expression fails to
/// evaluate.
pub fn is_linux_target(target: &str) -> (result: Result<bool, String>)
    ensures
        outcome_of(result) == judged(parsed_target(target@)),
{
    judge(parse_target(target))
}

} // verus!
