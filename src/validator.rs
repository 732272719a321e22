//! Composable predicates over inbound frames.
use vstd::prelude::*;
use crate::text::{chars_of, contains, ends_with, seq_contains, seq_ends_with, seq_starts_with, starts_with};

verus! {

#[verifier::external_type_specification]
#[verifier::external_body]
pub struct ExRegex(regex::Regex);

#[verifier::external_type_specification]
#[verifier::external_body]
pub struct ExRegexError(regex::Error);

/// Whether `pattern` is accepted by the regular-expression compiler.
pub uninterp spec fn regex_compiles(pattern: Seq<char>) -> bool;

/// Whether the expression compiled from `pattern` matches somewhere in `haystack`.
pub uninterp spec fn regex_finds(pattern: Seq<char>, haystack: Seq<char>) -> bool;

/// Relies on `regex::Regex::new`: it compiles `pattern` with the default
/// limits, and fails exactly on the patterns it does not accept.
#[verifier::external_body]
fn compile_regex(pattern: &str) -> (r: Result<regex::Regex, regex::Error>)
    ensures
        r is Ok <==> regex_compiles(pattern@),
{
    regex::Regex::new(pattern)
}

/// Relies on `regex::Regex::is_match`: whether the expression matches
/// anywhere in `haystack`. A `RegexValidator` is only ever built from the
/// expression compiled from its own pattern (see `RawValidator::new_regex`).
#[verifier::external_body]
fn regex_is_match(v: &RegexValidator, haystack: &str) -> (r: bool)
    ensures
        r == regex_finds(v@, haystack@),
{
    v.regex.is_match(haystack)
}

/// One inbound frame: its text, and the verdicts that the host reached for
/// the externally supplied predicates on this text, indexed by predicate id.
pub struct Frame {
    pub text: String,
    pub verdicts: Vec<bool>,
}

impl Frame {
    /// A frame for which no external verdict was computed.
    pub fn new(text: String) -> (r: Frame)
        ensures
            r.text@ == text@,
            r.verdicts@.len() == 0,
    {
        Frame { text, verdicts: Vec::new() }
    }

    /// A frame together with the host's verdicts for it.
    pub fn with_verdicts(text: String, verdicts: Vec<bool>) -> (r: Frame)
        ensures
            r.text@ == text@,
            r.verdicts@ == verdicts@,
    {
        Frame { text, verdicts }
    }
}

/// The children of an `all` or `any` composition.
pub struct ArrayValidator(pub Vec<RawValidator>);

/// The child of a negation.
pub struct BoxedValidator(pub Box<RawValidator>);

/// A compiled regular expression together with its source pattern.
pub struct RegexValidator {
    regex: regex::Regex,
    pattern: String,
}

impl View for RegexValidator {
    type V = Seq<char>;

    closed spec fn view(&self) -> Seq<char> {
        self.pattern@
    }
}

impl RegexValidator {
    /// The source pattern.
    pub fn pattern(&self) -> (r: &String)
        ensures
            r@ == self@,
    {
        &self.pattern
    }
}

/// A predicate supplied from outside the library, known by its id. Its
/// verdict on a frame is the frame's verdict at that index; a frame that
/// carries no verdict for it is rejected.
#[derive(Clone, Copy)]
pub struct PyCustom {
    pub id: u64,
}

/// A predicate over inbound frames, composed recursively.
pub enum RawValidator {
    AcceptAll(),
    Regex(RegexValidator),
    StartsWith(String),
    EndsWith(String),
    Contains(String),
    All(ArrayValidator),
    Any(ArrayValidator),
    Not(BoxedValidator),
    Custom(PyCustom),
}

/// Why a validator could not be built.
#[derive(Debug, Clone, PartialEq, Eq)]
pub enum ValidatorError {
    /// The pattern is not a regular expression that the compiler accepts.
    InvalidRegex(String),
}

/// Whether `v` accepts a frame of text `s` whose external verdicts are `c`.
pub open spec fn validates(v: RawValidator, s: Seq<char>, c: Seq<bool>) -> bool
    decreases v,
{
    match v {
        RawValidator::AcceptAll() => true,
        RawValidator::Regex(r) => regex_finds(r@, s),
        RawValidator::StartsWith(p) => seq_starts_with(s, p@),
        RawValidator::EndsWith(p) => seq_ends_with(s, p@),
        RawValidator::Contains(p) => seq_contains(s, p@),
        RawValidator::All(a) => forall|i: int|
            0 <= i < a.0@.len() ==> validates(a.0@[i], s, c),
        RawValidator::Any(a) => exists|i: int|
            0 <= i < a.0@.len() && validates(a.0@[i], s, c),
        RawValidator::Not(b) => !validates(*b.0, s, c),
        RawValidator::Custom(p) => p.id < c.len() && c[p.id as int],
    }
}

impl RawValidator {
    /// Evaluates the validator on `text`, whose characters are `chars`.
    fn eval(&self, text: &str, chars: &Vec<char>, verdicts: &Vec<bool>) -> (r: bool)
        requires
            chars@ == text@,
        ensures
            r == validates(*self, text@, verdicts@),
        decreases self,
    {
        match self {
            RawValidator::AcceptAll() => true,
            RawValidator::Regex(re) => regex_is_match(re, text),
            RawValidator::StartsWith(p) => starts_with(chars, &chars_of(p.as_str())),
            RawValidator::EndsWith(p) => ends_with(chars, &chars_of(p.as_str())),
            RawValidator::Contains(p) => contains(chars, &chars_of(p.as_str())),
            RawValidator::All(a) => {
                let mut i: usize = 0;
                while i < a.0.len()
                    invariant
                        chars@ == text@,
                        i <= a.0@.len(),
                        *self == RawValidator::All(*a),
                        forall|k: int| 0 <= k < i ==> validates(#[trigger] a.0@[k], text@, verdicts@),
                    decreases a.0@.len() - i,
                {
                    proof {
                        vstd::std_specs::vec::axiom_vec_index_decreases(a.0, i as int);
                        assert(decreases_to!(*self => self->All_0));
                        assert(decreases_to!(*a => a.0));
                        assert(decreases_to!(a.0 => a.0@));
                        assert(decreases_to!(a.0@ => a.0@[i as int]));
                        assert(decreases_to!(*self => a.0@[i as int]));
                    }
                    if !a.0[i].eval(text, chars, verdicts) {
                        assert(!validates(a.0@[i as int], text@, verdicts@));
                        return false;
                    }
                    i = i + 1;
                }
                true
            },
            RawValidator::Any(a) => {
                let mut i: usize = 0;
                while i < a.0.len()
                    invariant
                        chars@ == text@,
                        i <= a.0@.len(),
                        *self == RawValidator::Any(*a),
                        forall|k: int| 0 <= k < i ==> !validates(#[trigger] a.0@[k], text@, verdicts@),
                    decreases a.0@.len() - i,
                {
                    proof {
                        vstd::std_specs::vec::axiom_vec_index_decreases(a.0, i as int);
                        assert(decreases_to!(*self => self->Any_0));
                        assert(decreases_to!(*a => a.0));
                        assert(decreases_to!(a.0 => a.0@));
                        assert(decreases_to!(a.0@ => a.0@[i as int]));
                        assert(decreases_to!(*self => a.0@[i as int]));
                    }
                    if a.0[i].eval(text, chars, verdicts) {
                        assert(validates(a.0@[i as int], text@, verdicts@));
                        return true;
                    }
                    i = i + 1;
                }
                false
            },
            RawValidator::Not(b) => !b.0.eval(text, chars, verdicts),
            RawValidator::Custom(p) => {
                if p.id < verdicts.len() as u64 {
                    verdicts[p.id as usize]
                } else {
                    false
                }
            },
        }
    }

    /// Whether the validator accepts `frame`.
    pub fn validate(&self, frame: &Frame) -> (r: bool)
        ensures
            r == validates(*self, frame.text@, frame.verdicts@),
    {
        let chars = chars_of(frame.text.as_str());
        self.eval(frame.text.as_str(), &chars, &frame.verdicts)
    }

    /// Whether the validator accepts the text `msg`, with no external verdicts.
    pub fn check(&self, msg: String) -> (r: bool)
        ensures
            r == validates(*self, msg@, seq![]),
    {
        let chars = chars_of(msg.as_str());
        let none: Vec<bool> = Vec::new();
        proof {
            assert(none@ =~= seq![]);
        }
        self.eval(msg.as_str(), &chars, &none)
    }
}

} // verus!

verus! {

/// An `all` over no validators accepts every frame.
pub proof fn all_of_none_accepts(a: ArrayValidator, s: Seq<char>, c: Seq<bool>)
    requires
        a.0@.len() == 0,
    ensures
        validates(RawValidator::All(a), s, c),
{
}

/// An `any` over no validators rejects every frame.
pub proof fn any_of_none_rejects(a: ArrayValidator, s: Seq<char>, c: Seq<bool>)
    requires
        a.0@.len() == 0,
    ensures
        !validates(RawValidator::Any(a), s, c),
{
}

} // verus!
verus! {

impl RawValidator {
    /// A validator that accepts the frames in which `regex` matches.
    /// An invalid pattern is refused here, never at evaluation.
    pub fn new_regex(regex: String) -> (r: Result<RawValidator, ValidatorError>)
        ensures
            match r {
                Ok(v) => regex_compiles(regex@) && v is Regex && v->Regex_0@ == regex@,
                Err(ValidatorError::InvalidRegex(p)) => !regex_compiles(regex@) && p@ == regex@,
            },
    {
        match compile_regex(regex.as_str()) {
            Ok(compiled) => Ok(RawValidator::Regex(RegexValidator { regex: compiled, pattern: regex })),
            Err(_) => Err(ValidatorError::InvalidRegex(regex)),
        }
    }

    /// Accepts a frame when every one of `validators` does.
    pub fn new_all(validators: Vec<RawValidator>) -> (r: RawValidator)
        ensures
            r == RawValidator::All(ArrayValidator(validators)),
    {
        RawValidator::All(ArrayValidator(validators))
    }

    /// Accepts a frame when at least one of `validators` does.
    pub fn new_any(validators: Vec<RawValidator>) -> (r: RawValidator)
        ensures
            r == RawValidator::Any(ArrayValidator(validators)),
    {
        RawValidator::Any(ArrayValidator(validators))
    }

    /// Accepts exactly the frames that `validator` rejects.
    pub fn new_not(validator: RawValidator) -> (r: RawValidator)
        ensures
            r == RawValidator::Not(BoxedValidator(Box::new(validator))),
    {
        RawValidator::Not(BoxedValidator(Box::new(validator)))
    }

    /// Accepts the frames whose text contains `pattern`.
    pub fn new_contains(pattern: String) -> (r: RawValidator)
        ensures
            r == RawValidator::Contains(pattern),
    {
        RawValidator::Contains(pattern)
    }

    /// Accepts the frames whose text starts with `pattern`.
    pub fn new_starts_with(pattern: String) -> (r: RawValidator)
        ensures
            r == RawValidator::StartsWith(pattern),
    {
        RawValidator::StartsWith(pattern)
    }

    /// Accepts the frames whose text ends with `pattern`.
    pub fn new_ends_with(pattern: String) -> (r: RawValidator)
        ensures
            r == RawValidator::EndsWith(pattern),
    {
        RawValidator::EndsWith(pattern)
    }

    /// The pass-through validator, which accepts every frame.
    pub fn new() -> (r: RawValidator)
        ensures
            r == RawValidator::AcceptAll(),
    {
        RawValidator::AcceptAll()
    }

    /// Same as `new_regex`.
    pub fn regex(pattern: String) -> (r: Result<RawValidator, ValidatorError>)
        ensures
            match r {
                Ok(v) => regex_compiles(pattern@) && v is Regex && v->Regex_0@ == pattern@,
                Err(ValidatorError::InvalidRegex(p)) => !regex_compiles(pattern@) && p@ == pattern@,
            },
    {
        RawValidator::new_regex(pattern)
    }

    /// Same as `new_contains`.
    pub fn contains(pattern: String) -> (r: RawValidator)
        ensures
            r == RawValidator::Contains(pattern),
    {
        RawValidator::new_contains(pattern)
    }

    /// Same as `new_starts_with`.
    pub fn starts_with(pattern: String) -> (r: RawValidator)
        ensures
            r == RawValidator::StartsWith(pattern),
    {
        RawValidator::new_starts_with(pattern)
    }

    /// Same as `new_ends_with`.
    pub fn ends_with(pattern: String) -> (r: RawValidator)
        ensures
            r == RawValidator::EndsWith(pattern),
    {
        RawValidator::new_ends_with(pattern)
    }

    /// Same as `new_not`.
    pub fn ne(validator: RawValidator) -> (r: RawValidator)
        ensures
            r == RawValidator::Not(BoxedValidator(Box::new(validator))),
    {
        RawValidator::new_not(validator)
    }

    /// Same as `new_all`.
    pub fn all(validators: Vec<RawValidator>) -> (r: RawValidator)
        ensures
            r == RawValidator::All(ArrayValidator(validators)),
    {
        RawValidator::new_all(validators)
    }

    /// Same as `new_any`.
    pub fn any(validators: Vec<RawValidator>) -> (r: RawValidator)
        ensures
            r == RawValidator::Any(ArrayValidator(validators)),
    {
        RawValidator::new_any(validators)
    }

    /// The externally supplied predicate with the given id.
    pub fn custom(id: u64) -> (r: RawValidator)
        ensures
            r == RawValidator::Custom(PyCustom { id }),
    {
        RawValidator::Custom(PyCustom { id })
    }
}

impl Default for RawValidator {
    fn default() -> (r: RawValidator)
        ensures
            r == RawValidator::AcceptAll(),
    {
        RawValidator::AcceptAll()
    }
}

/// Negating a validator twice accepts exactly the frames it accepts.
pub proof fn double_negation(v: RawValidator, s: Seq<char>, c: Seq<bool>)
    ensures
        validates(
            RawValidator::Not(BoxedValidator(Box::new(RawValidator::Not(BoxedValidator(Box::new(v)))))),
            s,
            c,
        ) == validates(v, s, c),
{
    let inner = RawValidator::Not(BoxedValidator(Box::new(v)));
    assert(validates(inner, s, c) == !validates(v, s, c));
    assert(validates(RawValidator::Not(BoxedValidator(Box::new(inner))), s, c) == !validates(inner, s, c));
}

/// The pass-through validator accepts every frame.
pub proof fn accept_all_accepts(s: Seq<char>, c: Seq<bool>)
    ensures
        validates(RawValidator::AcceptAll(), s, c),
{
}

} // verus!
