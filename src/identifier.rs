//! Monitor identifiers and the ping addresses derived from them.
use vstd::prelude::*;
use vstd::string::*;

verus! {

/// Characters the identifier check treats as hexadecimal: ASCII digits and
/// every ASCII letter (the check is deliberately lenient about letters).
pub open spec fn is_hex_char(c: char) -> bool {
    ('0' <= c && c <= '9') || ('a' <= c && c <= 'z') || ('A' <= c && c <= 'Z')
}

/// Positions of the four group separators in a canonical identifier.
pub open spec fn is_separator_pos(i: int) -> bool {
    i == 8 || i == 13 || i == 18 || i == 23
}

/// A canonical identifier: 36 characters in 8-4-4-4-12 groups separated by
/// hyphens, every other character hexadecimal.
pub open spec fn valid_token(s: Seq<char>) -> bool {
    &&& s.len() == 36
    &&& forall|i: int|
        0 <= i < 36 ==> if is_separator_pos(i) {
            s[i] == '-'
        } else {
            is_hex_char(#[trigger] s[i])
        }
}

/// The address every ping for `id` is sent under.
pub open spec fn base_url_of(id: Seq<char>) -> Seq<char> {
    "https://hc-ping.com/"@ + id
}

/// True when every character of `s` in `from..to` is hexadecimal.
fn is_hex(s: &str, from: usize, to: usize) -> (r: bool)
    requires
        from <= to <= s@.len(),
    ensures
        r == (forall|i: int| from <= i < to ==> is_hex_char(#[trigger] s@[i])),
{
    let mut i = from;
    while i < to
        invariant
            from <= i <= to <= s@.len(),
            forall|j: int| from <= j < i ==> is_hex_char(#[trigger] s@[j]),
        decreases to - i,
    {
        let c = s.get_char(i);
        if !(('0' <= c && c <= '9') || ('a' <= c && c <= 'z') || ('A' <= c && c <= 'Z')) {
            return false;
        }
        i = i + 1;
    }
    true
}

/// A validated monitor identifier.
pub struct Uuid(String);

impl Clone for Uuid {
    fn clone(&self) -> (r: Self)
        ensures
            r@ == self@,
    {
        proof {
            use_type_invariant(self);
        }
        Uuid(self.0.clone())
    }
}

impl View for Uuid {
    type V = Seq<char>;

    closed spec fn view(&self) -> Seq<char> {
        self.0@
    }
}

impl Uuid {
    #[verifier::type_invariant]
    spec fn inv(&self) -> bool {
        valid_token(self.0@)
    }

    /// Accepts `s` exactly when it is a canonical identifier.
    pub fn from_str(s: &str) -> (r: Option<Self>)
        ensures
            r.is_some() == valid_token(s@),
            r matches Some(u) ==> u@ == s@,
    {
        if s.unicode_len() != 36 {
            return None;
        }
        if is_hex(s, 0, 8) && s.get_char(8) == '-' && is_hex(s, 9, 13) && s.get_char(13) == '-'
            && is_hex(s, 14, 18) && s.get_char(18) == '-' && is_hex(s, 19, 23) && s.get_char(23)
            == '-' && is_hex(s, 24, 36) {
            assert forall|i: int| 0 <= i < 36 implies if is_separator_pos(i) {
                s@[i] == '-'
            } else {
                is_hex_char(#[trigger] s@[i])
            } by {
                if i < 8 {
                } else if i < 13 {
                } else if i < 18 {
                } else if i < 23 {
                } else {
                }
            }
            Some(Uuid(s.to_owned()))
        } else {
            None
        }
    }

    /// The identifier's text.
    pub fn as_str(&self) -> (r: &str)
        ensures
            r@ == self@,
            valid_token(r@),
    {
        proof {
            use_type_invariant(self);
        }
        self.0.as_str()
    }
}

} // verus!
