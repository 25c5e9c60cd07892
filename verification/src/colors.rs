//! Styles for text, and composite styles of the form `base:param`.

use vstd::prelude::*;

verus! {

/// The character that parts a composite style.
pub const SEPARATOR: char = ':';

/// How many separators a composite style holds.
pub open spec fn separators(composite: Seq<char>) -> nat
    decreases composite.len(),
{
    if composite.len() == 0 {
        0
    } else {
        separators(composite.drop_last()) + if composite.last() == SEPARATOR {
            1nat
        } else {
            0nat
        }
    }
}

/// What a composite style asks for.
pub enum CompositeStyle<'a> {
    /// One style, to be applied as it stands.
    Single(&'a str),
    /// A parameter style, to be applied first, and a base style, to be
    /// applied to what the parameter style made.
    Pair { base: &'a str, param: &'a str },
    /// More than two parts.
    Malformed,
}

/// `parts` is what `composite` asks for: the whole of it where it holds no
/// separator, what stands before and after the separator where it holds
/// one, and nothing where it holds more.
pub open spec fn is_split(composite: Seq<char>, parts: CompositeStyle) -> bool {
    match parts {
        CompositeStyle::Single(style) => separators(composite) == 0 && style@ == composite,
        CompositeStyle::Pair { base, param } => {
            &&& separators(composite) == 1
            &&& composite == base@ + seq![SEPARATOR] + param@
        },
        CompositeStyle::Malformed => separators(composite) >= 2,
    }
}

/// A prefix holds no more separators than the whole.
pub proof fn lemma_separators_prefix(composite: Seq<char>, n: int)
    requires
        0 <= n <= composite.len(),
    ensures
        separators(composite.subrange(0, n)) <= separators(composite),
    decreases composite.len(),
{
    if n < composite.len() {
        lemma_separators_prefix(composite.drop_last(), n);
        assert(composite.drop_last().subrange(0, n) == composite.subrange(0, n));
    } else {
        assert(composite.subrange(0, n) == composite);
    }
}

/// Parts a composite style at its separators.
pub fn split_composite<'a>(composite: &'a str) -> (parts: CompositeStyle<'a>)
    ensures
        is_split(composite@, parts),
{
    let n = composite.unicode_len();
    let mut found: usize = 0;
    let mut at: usize = 0;
    let mut i: usize = 0;
    while i < n
        invariant
            n == composite@.len(),
            i <= n,
            found <= 1,
            found == separators(composite@.subrange(0, i as int)),
            found == 1 ==> at < i && composite@[at as int] == SEPARATOR && separators(
                composite@.subrange(0, at as int),
            ) == 0,
        decreases n - i,
    {
        let c = composite.get_char(i);
        proof {
            let next = composite@.subrange(0, i + 1);
            assert(next.drop_last() == composite@.subrange(0, i as int));
        }
        if c == ':' {
            if found == 1 {
                proof {
                    lemma_separators_prefix(composite@, i + 1);
                }
                return CompositeStyle::Malformed;
            }
            found = 1;
            at = i;
        }
        i += 1;
    }
    assert(composite@.subrange(0, n as int) == composite@);
    if found == 0 {
        CompositeStyle::Single(composite)
    } else {
        let base = composite.substring_char(0, at);
        let param = composite.substring_char(at + 1, n);
        assert(composite@ == base@ + seq![SEPARATOR] + param@);
        CompositeStyle::Pair { base, param }
    }
}

/// Something that can style text.
pub trait StyleConfigurable {
    /// Whether `styled` is `text` in the style `style`. A type that does
    /// not say what its styles do accepts any result.
    open spec fn styles(&self, style: Seq<char>, text: Seq<char>, styled: Seq<char>) -> bool {
        true
    }

    /// Applies a single style (such as `red`, `underline` or `mark`) to
    /// the text.
    fn apply_style(&self, style: &str, text: &str) -> (styled: String)
        ensures
            self.styles(style@, text@, styled@),
    ;

    /// Applies a composite style. One part is applied as a single style.
    /// Of two parts, `base:param`, the parameter style is applied first and
    /// the base style to what it made. Anything else leaves the text as it
    /// is.
    fn apply_composite_style(&self, composite: &str, text: &str) -> (styled: String)
        ensures
            separators(composite@) == 0 ==> self.styles(composite@, text@, styled@),
            separators(composite@) == 1 ==> exists|base: Seq<char>, param: Seq<char>, between: Seq<char>|
                {
                    &&& composite@ == base + seq![SEPARATOR] + param
                    &&& #[trigger] self.styles(param, text@, between)
                    &&& #[trigger] self.styles(base, between, styled@)
                },
            separators(composite@) >= 2 ==> styled@ == text@,
    {
        match split_composite(composite) {
            CompositeStyle::Single(style) => self.apply_style(style, text),
            CompositeStyle::Pair { base, param } => {
                let intermediate = self.apply_style(param, text);
                self.apply_style(base, intermediate.as_str())
            },
            CompositeStyle::Malformed => String::from_str(text),
        }
    }
}

} // verus!
