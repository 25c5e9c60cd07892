//! The rules of a configuration: a list of patterns, which count only if
//! every one of them is a regular expression.

use crate::text::texts_of;
use vstd::prelude::*;

verus! {

/// A configuration, which is a list of rules.
pub struct VlmConfig {
    rules: Vec<String>,
}

impl VlmConfig {
    /// The rules as text.
    pub closed spec fn rule_texts(self) -> Seq<Seq<char>> {
        texts_of(self.rules@)
    }

    /// A configuration with the given rules.
    pub fn new(rules: Vec<String>) -> (config: Self)
        ensures
            config.rule_texts() == texts_of(rules@),
    {
        VlmConfig { rules }
    }

    /// The rules.
    pub fn rules(&self) -> (rules: &Vec<String>)
        ensures
            texts_of(rules@) == self.rule_texts(),
    {
        &self.rules
    }
}

/// The parts one after the other, with the separator between each two.
pub open spec fn joined(parts: Seq<Seq<char>>, separator: Seq<char>) -> Seq<char>
    decreases parts.len(),
{
    if parts.len() == 0 {
        Seq::empty()
    } else if parts.len() == 1 {
        parts[0]
    } else {
        joined(parts.drop_last(), separator) + separator + parts.last()
    }
}

/// `at` is the place of the first answer that is `false`, if there is one.
pub open spec fn is_first_rejected(compiled: Seq<bool>, at: Option<usize>) -> bool {
    match at {
        Some(i) => 0 <= i < compiled.len() && !compiled[i as int] && forall|j: int|
            0 <= j < i ==> compiled[j],
        None => forall|j: int| 0 <= j < compiled.len() ==> compiled[j],
    }
}

/// Calls `regex::Regex::new` and says whether the pattern compiled. What
/// compiles depends on the size of the compiled program as well as on the
/// pattern, so nothing is claimed of the answer.
#[verifier::external_body]
fn compiles(pattern: &str) -> bool {
    regex::Regex::new(pattern).is_ok()
}

/// The place of the first answer that is `false`.
pub fn first_rejected(compiled: &Vec<bool>) -> (at: Option<usize>)
    ensures
        is_first_rejected(compiled@, at),
{
    let mut i: usize = 0;
    while i < compiled.len()
        invariant
            i <= compiled.len(),
            forall|j: int| 0 <= j < i ==> compiled[j],
        decreases compiled.len() - i,
    {
        if !compiled[i] {
            return Some(i);
        }
        i += 1;
    }
    None
}

/// Writes the parts one after the other, with the separator between each
/// two.
pub fn join(parts: &Vec<String>, separator: &str) -> (text: String)
    ensures
        text@ == joined(texts_of(parts@), separator@),
{
    let mut text = String::new();
    let mut i: usize = 0;
    while i < parts.len()
        invariant
            i <= parts.len(),
            text@ == joined(texts_of(parts@).subrange(0, i as int), separator@),
        decreases parts.len() - i,
    {
        proof {
            let all = texts_of(parts@);
            let next = all.subrange(0, i + 1);
            assert(next.drop_last() == all.subrange(0, i as int));
        }
        if i > 0 {
            text.append(separator);
        }
        text.append(parts[i].as_str());
        i += 1;
    }
    assert(texts_of(parts@).subrange(0, parts.len() as int) == texts_of(parts@));
    text
}

/// The rules joined by commas where each of them compiled, and else the
/// place of the first rule that did not. `compiled` says of each rule
/// whether it did.
pub fn rules_outcome(rules: &Vec<String>, compiled: &Vec<bool>) -> (outcome: Result<String, usize>)
    requires
        compiled.len() == rules.len(),
    ensures
        match outcome {
            Ok(text) => is_first_rejected(compiled@, None) && text@ == joined(
                texts_of(rules@),
                ","@,
            ),
            Err(at) => is_first_rejected(compiled@, Some(at)),
        },
{
    match first_rejected(compiled) {
        Some(at) => Err(at),
        None => Ok(join(rules, ",")),
    }
}

/// Compiles every rule of the configuration as a regular expression. Where
/// all of them compile, the rules joined by commas come back; where one
/// does not, its place in the list.
pub fn compile_rules(config: &VlmConfig) -> (outcome: Result<String, usize>)
    ensures
        outcome matches Ok(text) ==> text@ == joined(config.rule_texts(), ","@),
        outcome matches Err(at) ==> at < config.rule_texts().len(),
        config.rule_texts().len() == 0 ==> outcome.is_ok(),
{
    let rules = config.rules();
    let mut compiled: Vec<bool> = Vec::new();
    let mut i: usize = 0;
    while i < rules.len()
        invariant
            i <= rules.len(),
            compiled.len() == i,
        decreases rules.len() - i,
    {
        compiled.push(compiles(rules[i].as_str()));
        i += 1;
    }
    rules_outcome(rules, &compiled)
}

} // verus!
