//! Object keys: the URL path segment, taken verbatim, judged non-blank.

use vstd::prelude::*;

verus! {

/// A character the gateway counts as whitespace when judging a path
/// segment: the Unicode white-space code points, the same fixed set that
/// `char::is_whitespace` recognises, written out here so that the spec and
/// the executable judgment name each code point directly.
pub open spec fn is_space_char(c: char) -> bool {
    ||| c == '\u{0009}'  // character tabulation
    ||| c == '\u{000A}'  // line feed
    ||| c == '\u{000B}'  // line tabulation
    ||| c == '\u{000C}'  // form feed
    ||| c == '\u{000D}'  // carriage return
    ||| c == '\u{0020}'  // space
    ||| c == '\u{0085}'  // next line
    ||| c == '\u{00A0}'  // no-break space
    ||| c == '\u{1680}'  // ogham space mark
    ||| c == '\u{2000}'  // en quad
    ||| c == '\u{2001}'  // em quad
    ||| c == '\u{2002}'  // en space
    ||| c == '\u{2003}'  // em space
    ||| c == '\u{2004}'  // three-per-em space
    ||| c == '\u{2005}'  // four-per-em space
    ||| c == '\u{2006}'  // six-per-em space
    ||| c == '\u{2007}'  // figure space
    ||| c == '\u{2008}'  // punctuation space
    ||| c == '\u{2009}'  // thin space
    ||| c == '\u{200A}'  // hair space
    ||| c == '\u{2028}'  // line separator
    ||| c == '\u{2029}'  // paragraph separator
    ||| c == '\u{202F}'  // narrow no-break space
    ||| c == '\u{205F}'  // medium mathematical space
    ||| c == '\u{3000}'  // ideographic space
}

/// A segment is blank when every character of it is whitespace; the empty
/// segment is blank. A blank segment names no object and is rejected before
/// any backend call.
pub open spec fn is_blank(s: Seq<char>) -> bool {
    forall|i: int| 0 <= i < s.len() ==> is_space_char(s[i])
}

/// An object key: the path segment exactly as the client sent it, with no
/// normalization, known to be non-blank.
pub struct ObjectKey {
    text: String,
}

impl View for ObjectKey {
    type V = Seq<char>;

    closed spec fn view(&self) -> Seq<char> {
        self.text@
    }
}

impl ObjectKey {
    /// A well-formed key is non-blank.
    pub open spec fn wf(&self) -> bool {
        !is_blank(self@)
    }

    /// Judges a path segment: a non-blank segment becomes a key with the very
    /// same characters; a blank one is refused.
    pub fn parse(segment: &str) -> (r: Option<ObjectKey>)
        ensures
            match r {
                Some(k) => !is_blank(segment@) && k@ == segment@ && k.wf(),
                None => is_blank(segment@),
            },
    {
        let n: usize = segment.unicode_len();
        let mut i: usize = 0;
        while i < n
            invariant
                n == segment@.len(),
                i <= n,
                forall|j: int| 0 <= j < i ==> is_space_char(segment@[j]),
            decreases n - i,
        {
            let c = segment.get_char(i);
            if !is_space(c) {
                return Some(ObjectKey { text: segment.to_owned() });
            }
            i += 1;
        }
        None
    }

    /// The key's characters, for handing to the backend unchanged.
    pub fn as_str(&self) -> (s: &str)
        ensures
            s@ == self@,
    {
        self.text.as_str()
    }
}

/// Whether the gateway counts this character as whitespace.
pub fn is_space(c: char) -> (r: bool)
    ensures
        r == is_space_char(c),
{
    c == '\u{0009}' || c == '\u{000A}' || c == '\u{000B}' || c == '\u{000C}' || c == '\u{000D}'
        || c == '\u{0020}' || c == '\u{0085}' || c == '\u{00A0}' || c == '\u{1680}'
        || c == '\u{2000}' || c == '\u{2001}' || c == '\u{2002}' || c == '\u{2003}'
        || c == '\u{2004}' || c == '\u{2005}' || c == '\u{2006}' || c == '\u{2007}'
        || c == '\u{2008}' || c == '\u{2009}' || c == '\u{200A}' || c == '\u{2028}'
        || c == '\u{2029}' || c == '\u{202F}' || c == '\u{205F}' || c == '\u{3000}'
}

} // verus!
