//! The live-validation pipeline: one evaluation of the typed text by the
//! domain evaluator (the `chem_eq` crate), classified into the outcome
//! taxonomy that the renderer displays.
//!
//! The balancer rebuilds its result text from the equation's stored text
//! split on single spaces, and indexes the pieces by the compound count;
//! on text whose pieces fall short (compounds joined by `+` without
//! spaces) that indexing would abort. The pipeline therefore counts the
//! pieces itself, in verified code, and hands the balancer either the
//! parsed equation — when the pieces line up — or a re-parse of its
//! canonical single-space rendering, whose pieces line up by
//! construction.

use vstd::prelude::*;
use vstd::string::StrSliceExecFns;

verus! {

/// The `chem_eq` equation type, opaque here: the library carries a balanced
/// equation through but never looks inside it.
#[verifier::external_type_specification]
#[verifier::external_body]
pub struct ExEquation(chem_eq::Equation);

/// A balanced equation together with its canonical textual rendering, as
/// the balancer produced it.
pub struct Balanced {
    /// The structured balanced equation.
    pub eq: chem_eq::Equation,
    /// The canonical text of the balanced equation.
    pub text: String,
}

/// Everything the domain evaluator can report instead of a balanced
/// equation.
pub enum DomainError {
    /// The text does not lexically parse as an equation.
    Parse,
    /// The text parses but is not a valid equation.
    Invalid,
    /// The equation is well formed but the balancing procedure failed;
    /// carries the balancer's message.
    Balance(String),
}

/// What one parse of the given characters returns. Parsing reads nothing
/// but the text, so the result is a function of the characters alone; its
/// exact value is left unstated.
pub uninterp spec fn parse_of(s: Seq<char>) -> Result<chem_eq::Equation, DomainError>;

/// The text an equation stores, exactly the string the balancer later
/// splits on single spaces.
pub uninterp spec fn text_of(eq: chem_eq::Equation) -> Seq<char>;

/// How many compounds stand on the left side of an equation.
pub uninterp spec fn left_count_of(eq: chem_eq::Equation) -> usize;

/// What re-parsing an equation's canonical single-space rendering returns.
pub uninterp spec fn canon_of(eq: chem_eq::Equation) -> Result<chem_eq::Equation, DomainError>;

/// Marks the equations that came out of `canonicalize`: their stored text
/// is the canonical rendering, one space-free piece per compound, so the
/// balancer's split always lines up on them.
pub uninterp spec fn is_canonical(eq: chem_eq::Equation) -> bool;

/// What balancing the given equation returns. Balancing reads nothing but
/// the equation, so the result is a function of it alone.
pub uninterp spec fn balance_of(eq: chem_eq::Equation) -> Result<Balanced, DomainError>;

/// Relies on `chem_eq::Equation::new`: one parse of the text, a function
/// of the characters alone. Both parse-level errors (`ParsingError`,
/// `TooMuchInput`) report that the text is not an equation;
/// `IncorrectEquation` reports an equation that is not valid. The parser's
/// element-count arithmetic is unchecked; a build with overflow checks on
/// can still abort it on astronomically large counts, a boundary no
/// precondition here can state without writing that arithmetic out.
#[verifier::external_body]
fn parse_eq(input: &Vec<char>) -> (r: Result<chem_eq::Equation, DomainError>)
    ensures
        r == parse_of(input@),
{
    let text: String = input.iter().collect();
    match chem_eq::Equation::new(&text) {
        Err(chem_eq::error::EquationError::ParsingError(_))
        | Err(chem_eq::error::EquationError::TooMuchInput(_)) => Err(DomainError::Parse),
        Err(chem_eq::error::EquationError::IncorrectEquation) => Err(DomainError::Invalid),
        Ok(eq) => Ok(eq),
    }
}

/// Relies on `chem_eq::Equation::equation`: the text the equation stores,
/// the very string its balancer later splits.
#[verifier::external_body]
fn equation_text(eq: &chem_eq::Equation) -> (r: String)
    ensures
        r@ == text_of(*eq),
{
    eq.equation().to_string()
}

/// Relies on `chem_eq::Equation::left`: the compounds on the left side,
/// handed out here only as their number.
#[verifier::external_body]
fn left_count(eq: &chem_eq::Equation) -> (n: usize)
    ensures
        n == left_count_of(*eq),
{
    eq.left().len()
}

/// Relies on `chem_eq::Equation::reconstruct` and `chem_eq::Equation::new`:
/// the canonical single-space rendering of the equation, re-parsed. Each
/// compound renders as one space-free piece joined by " + " and the
/// direction arrow, which is what lets the result carry `is_canonical`.
#[verifier::external_body]
fn canonicalize(eq: &chem_eq::Equation) -> (r: Result<chem_eq::Equation, DomainError>)
    ensures
        r == canon_of(*eq),
        r matches Ok(c) ==> is_canonical(c),
{
    match chem_eq::Equation::new(&eq.reconstruct()) {
        Ok(canon) => Ok(canon),
        Err(chem_eq::error::EquationError::IncorrectEquation) => Err(DomainError::Invalid),
        Err(_) => Err(DomainError::Parse),
    }
}

/// The separator pieces that the balancer's text rebuild discards when it
/// splits the stored text on single spaces.
pub open spec fn sep_token(t: Seq<char>) -> bool {
    t == "+"@ || t == "<-"@ || t == "<->"@ || t == "->"@
}

/// The pieces of `s` split on every single space — empty pieces included —
/// that are not separator tokens, counted from scan position `i` with the
/// current piece starting at `start` and `acc` pieces already counted.
pub open spec fn count_tokens_from(s: Seq<char>, i: int, start: int, acc: nat) -> nat
    decreases s.len() - i,
{
    if i >= s.len() {
        acc + (if sep_token(s.subrange(start, s.len() as int)) {
            0nat
        } else {
            1nat
        })
    } else if s[i] == ' ' {
        count_tokens_from(
            s,
            i + 1,
            i + 1,
            acc + (if sep_token(s.subrange(start, i)) {
                0nat
            } else {
                1nat
            }),
        )
    } else {
        count_tokens_from(s, i + 1, start, acc)
    }
}

/// How many compound pieces the balancer's split of this text yields.
pub open spec fn token_count(s: Seq<char>) -> nat {
    count_tokens_from(s, 0, 0, 0)
}

/// Whether the piece `v[start..end]` is one of the separator tokens.
fn is_sep_piece(v: &Vec<char>, start: usize, end: usize) -> (b: bool)
    requires
        start <= end <= v@.len(),
    ensures
        b == sep_token(v@.subrange(start as int, end as int)),
{
    proof {
        reveal_strlit("+");
        reveal_strlit("<-");
        reveal_strlit("<->");
        reveal_strlit("->");
    }
    let ghost t = v@.subrange(start as int, end as int);
    let len: usize = end - start;
    let r: bool = if len == 1 {
        v[start] == '+'
    } else if len == 2 {
        (v[start] == '<' && v[start + 1] == '-') || (v[start] == '-' && v[start + 1] == '>')
    } else if len == 3 {
        v[start] == '<' && v[start + 1] == '-' && v[start + 2] == '>'
    } else {
        false
    };
    proof {
        assert(t.len() == len);
        if r {
            if t.len() == 1 {
                assert(t =~= "+"@);
            } else if t.len() == 2 {
                if t[0] == '<' {
                    assert(t =~= "<-"@);
                } else {
                    assert(t =~= "->"@);
                }
            } else {
                assert(t =~= "<->"@);
            }
        }
        if sep_token(t) {
            if t == "+"@ {
                assert(len == 1 && t[0] == '+');
            } else if t == "<-"@ {
                assert(len == 2 && t[0] == '<' && t[1] == '-');
            } else if t == "<->"@ {
                assert(len == 3 && t[0] == '<' && t[1] == '-' && t[2] == '>');
            } else {
                assert(len == 2 && t[0] == '-' && t[1] == '>');
            }
            assert(r);
        }
    }
    r
}

/// Count the compound pieces of the text, exactly as the balancer's split
/// would: split on every single space, keep empty pieces, drop separator
/// tokens.
fn count_tokens(v: &Vec<char>) -> (n: u128)
    ensures
        n == token_count(v@),
{
    let mut i: usize = 0;
    let mut start: usize = 0;
    let mut acc: u128 = 0;
    while i < v.len()
        invariant
            start <= i <= v@.len(),
            acc <= i,
            token_count(v@) == count_tokens_from(v@, i as int, start as int, acc as nat),
        decreases v@.len() - i,
    {
        if v[i] == ' ' {
            if !is_sep_piece(v, start, i) {
                acc = acc + 1;
            }
            start = i + 1;
        }
        i = i + 1;
    }
    if is_sep_piece(v, start, v.len()) {
        acc
    } else {
        acc + 1
    }
}

/// The characters of a string slice, collected one by one.
pub(crate) fn chars_of(s: &str) -> (v: Vec<char>)
    ensures
        v@ == s@,
{
    let n = s.unicode_len();
    let mut v: Vec<char> = Vec::new();
    let mut i: usize = 0;
    while i < n
        invariant
            i <= n,
            n == s@.len(),
            v@ == s@.subrange(0, i as int),
        decreases n - i,
    {
        let c = s.get_char(i);
        v.push(c);
        proof {
            assert(v@ =~= s@.subrange(0, i + 1 as int));
        }
        i += 1;
    }
    proof {
        assert(v@ =~= s@);
    }
    v
}

/// Relies on `chem_eq::balance::EquationBalancer::new` and `::balance`
/// (one balancing of the equation), `chem_eq::Equation::equation` (the
/// balanced equation's canonical text) and `chem_eq::error::BalanceError`'s
/// `Display` (its fixed message). The precondition keeps the balancer's
/// text rebuild in range: it slices the stored text's compound pieces by
/// the left-side compound count, so either the pieces must suffice or the
/// equation must be a canonical re-parse, whose pieces line up by
/// construction. The balancer's rational arithmetic is unchecked; a build
/// with overflow checks on can still abort it on extreme coefficients, a
/// boundary no precondition here can state.
#[verifier::external_body]
fn balance_eq(eq: &chem_eq::Equation) -> (r: Result<Balanced, DomainError>)
    requires
        token_count(text_of(*eq)) >= left_count_of(*eq) || is_canonical(*eq),
    ensures
        r == balance_of(*eq),
{
    match chem_eq::balance::EquationBalancer::new(eq).balance() {
        Ok(b) => Ok(Balanced { text: b.equation().to_string(), eq: b }),
        Err(e) => Err(DomainError::Balance(e.to_string())),
    }
}

/// What one full evaluation of the given characters returns: the parse,
/// then — on the alignment the balancer needs, or after canonicalizing —
/// the balance.
pub open spec fn eval_of(s: Seq<char>) -> Result<Balanced, DomainError> {
    match parse_of(s) {
        Err(e) => Err(e),
        Ok(eq) => if token_count(text_of(eq)) >= left_count_of(eq) {
            balance_of(eq)
        } else {
            match canon_of(eq) {
                Ok(c) => balance_of(c),
                Err(e) => Err(e),
            }
        },
    }
}

/// One full evaluation: parse, then balance. When the typed text's pieces
/// fall short of the compound count — spacing the balancer's text rebuild
/// cannot index — the equation is canonicalized first, so the balancer is
/// never handed text it would abort on.
fn evaluate(input: &Vec<char>) -> (r: Result<Balanced, DomainError>)
    ensures
        r == eval_of(input@),
{
    match parse_eq(input) {
        Err(e) => Err(e),
        Ok(eq) => {
            let text = equation_text(&eq);
            let pieces = chars_of(text.as_str());
            let tokens = count_tokens(&pieces);
            let lc = left_count(&eq);
            if tokens >= lc as u128 {
                balance_eq(&eq)
            } else {
                match canonicalize(&eq) {
                    Ok(canon) => balance_eq(&canon),
                    Err(e) => Err(e),
                }
            }
        },
    }
}

/// The outcome of the most recent validation, one kind per possible
/// evaluator report.
pub enum Outcome {
    /// The text parsed and balanced; holds the balanced equation and its
    /// canonical text.
    Success(Balanced),
    /// The text does not parse as an equation.
    ParseFailure,
    /// The text parses but is not a valid equation.
    InvalidEquation,
    /// Balancing failed, with the balancer's message.
    BalanceFailure(String),
}

/// The total mapping from an evaluator report to a displayed outcome kind.
pub open spec fn classify_spec(r: Result<Balanced, DomainError>) -> Outcome {
    match r {
        Ok(b) => Outcome::Success(b),
        Err(DomainError::Parse) => Outcome::ParseFailure,
        Err(DomainError::Invalid) => Outcome::InvalidEquation,
        Err(DomainError::Balance(msg)) => Outcome::BalanceFailure(msg),
    }
}

/// Classify an evaluator report. Every possible report maps to exactly one
/// outcome kind, so the renderer never meets an unrecognized case.
pub fn classify(r: Result<Balanced, DomainError>) -> (o: Outcome)
    ensures
        o == classify_spec(r),
{
    match r {
        Ok(b) => Outcome::Success(b),
        Err(DomainError::Parse) => Outcome::ParseFailure,
        Err(DomainError::Invalid) => Outcome::InvalidEquation,
        Err(DomainError::Balance(msg)) => Outcome::BalanceFailure(msg),
    }
}

/// What validation of the given input must show: nothing for empty input,
/// else the classified evaluation of exactly these characters.
pub open spec fn spec_validate(s: Seq<char>) -> Option<Outcome> {
    if s.len() == 0 {
        None
    } else {
        Some(classify_spec(eval_of(s)))
    }
}

/// Validate the current input: empty input yields no outcome, any other
/// input is evaluated once, synchronously, and the report classified.
pub fn validate(input: &Vec<char>) -> (r: Option<Outcome>)
    ensures
        r == spec_validate(input@),
{
    if input.len() == 0 {
        None
    } else {
        Some(classify(evaluate(input)))
    }
}

} // verus!
