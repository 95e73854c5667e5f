use vstd::prelude::*;

verus! {

/// The characters with the Unicode property `White_Space`.
pub open spec fn is_white_space(c: char) -> bool {
    ||| '\u{9}' <= c <= '\u{d}'
    ||| c == '\u{20}'
    ||| c == '\u{85}'
    ||| c == '\u{a0}'
    ||| c == '\u{1680}'
    ||| '\u{2000}' <= c <= '\u{200a}'
    ||| '\u{2028}' <= c <= '\u{2029}'
    ||| c == '\u{202f}'
    ||| c == '\u{205f}'
    ||| c == '\u{3000}'
}

/// A text in which every character is white space; the empty text is blank.
pub open spec fn is_blank_text(s: Seq<char>) -> bool {
    forall|i: int| 0 <= i < s.len() ==> is_white_space(#[trigger] s[i])
}

/// The text without its leading and trailing white space.
pub open spec fn trimmed(s: Seq<char>) -> Seq<char>
    decreases s.len(),
{
    if s.len() == 0 {
        s
    } else if is_white_space(s[0]) {
        trimmed(s.drop_first())
    } else if is_white_space(s.last()) {
        trimmed(s.drop_last())
    } else {
        s
    }
}

/// `str::trim` of the standard library: the slice of `s` that is left when
/// the characters with the Unicode property `White_Space` are taken off both
/// of its ends. The contract spells that property out, character by
/// character.
pub assume_specification[ str::trim ](s: &str) -> (res: &str)
    ensures
        res@ == trimmed(s@),
;

/// Trimming leaves nothing exactly when the text is blank.
pub proof fn trimmed_is_empty_iff_blank(s: Seq<char>)
    ensures
        trimmed(s).len() == 0 <==> is_blank_text(s),
    decreases s.len(),
{
    if s.len() == 0 {
    } else if is_white_space(s[0]) {
        let rest = s.drop_first();
        trimmed_is_empty_iff_blank(rest);
        if is_blank_text(rest) {
            assert forall|i: int| 0 <= i < s.len() implies is_white_space(#[trigger] s[i]) by {
                if i > 0 {
                    assert(s[i] == rest[i - 1]);
                }
            }
        }
        if is_blank_text(s) {
            assert forall|i: int| 0 <= i < rest.len() implies is_white_space(
                #[trigger] rest[i],
            ) by {
                assert(rest[i] == s[i + 1]);
            }
        }
    } else if is_white_space(s.last()) {
        let rest = s.drop_last();
        trimmed_is_empty_iff_blank(rest);
        assert(rest[0] == s[0]);
    }
}

/// What trimming leaves neither starts nor ends with white space.
pub proof fn trimmed_has_bare_ends(s: Seq<char>)
    ensures
        trimmed(s).len() > 0 ==> !is_white_space(trimmed(s)[0]) && !is_white_space(
            trimmed(s).last(),
        ),
    decreases s.len(),
{
    if s.len() == 0 {
    } else if is_white_space(s[0]) {
        trimmed_has_bare_ends(s.drop_first());
    } else if is_white_space(s.last()) {
        trimmed_has_bare_ends(s.drop_last());
    }
}

/// Trimming a trimmed text changes nothing.
pub proof fn trimming_twice_is_trimming_once(s: Seq<char>)
    ensures
        trimmed(trimmed(s)) == trimmed(s),
{
    trimmed_has_bare_ends(s);
}

/// Tells whether a text holds nothing but white space.
pub fn is_blank(s: &str) -> (blank: bool)
    ensures
        blank == is_blank_text(s@),
{
    proof {
        trimmed_is_empty_iff_blank(s@);
    }
    s.trim().is_empty()
}

/// Trimming takes nothing but white space off, at the two ends: with
/// [`trimmed_has_bare_ends`] this leaves one text that it can come to.
pub proof fn trimming_takes_only_white_space_off(s: Seq<char>) -> (ends: (Seq<char>, Seq<char>))
    ensures
        s == ends.0 + trimmed(s) + ends.1,
        forall|i: int| 0 <= i < ends.0.len() ==> is_white_space(#[trigger] ends.0[i]),
        forall|i: int| 0 <= i < ends.1.len() ==> is_white_space(#[trigger] ends.1[i]),
    decreases s.len(),
{
    let none = Seq::<char>::empty();
    if s.len() == 0 {
        assert(s == none + trimmed(s) + none);
        (none, none)
    } else if is_white_space(s[0]) {
        let ends = trimming_takes_only_white_space_off(s.drop_first());
        let front = seq![s[0]] + ends.0;
        assert(s == seq![s[0]] + s.drop_first());
        assert(s == front + trimmed(s) + ends.1);
        (front, ends.1)
    } else if is_white_space(s.last()) {
        let ends = trimming_takes_only_white_space_off(s.drop_last());
        let back = ends.1 + seq![s.last()];
        assert(s == s.drop_last() + seq![s.last()]);
        assert(s == ends.0 + trimmed(s) + back);
        (ends.0, back)
    } else {
        assert(s == none + trimmed(s) + none);
        (none, none)
    }
}

/// One character that is no white space keeps a text from being blank, and
/// nothing else does.
pub proof fn blank_texts_hold_only_white_space(s: &str, blank: bool)
    requires
        call_ensures(is_blank, (s,), blank),
    ensures
        !blank <==> exists|i: int| 0 <= i < s@.len() && !is_white_space(#[trigger] s@[i]),
{
}

/// White space is made up of the tab to the carriage return, the space, and
/// nineteen characters beyond ASCII.
pub proof fn white_space_by_its_code(c: char)
    ensures
        c as u32 <= 0x7f ==> (is_white_space(c) <==> 9 <= c as u32 <= 13 || c as u32 == 32),
        c as u32 > 0x7f ==> (is_white_space(c) <==> c as u32 == 0x85 || c as u32 == 0xa0 || c as u32
            == 0x1680 || 0x2000 <= c as u32 <= 0x200a || c as u32 == 0x2028 || c as u32 == 0x2029
            || c as u32 == 0x202f || c as u32 == 0x205f || c as u32 == 0x3000),
{
}

} // verus!
