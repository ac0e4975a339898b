//! Content-type routing. Declared content-type labels are compared
//! case-insensitively (ASCII case folding).

use vstd::prelude::*;

verus! {

/// ASCII-lowercase a single character; other characters are unchanged.
pub open spec fn lower_char(c: char) -> char {
    if 65 <= c as u32 && c as u32 <= 90 {
        ((c as u8) + 32) as char
    } else {
        c
    }
}

/// ASCII-lowercase a character sequence.
pub open spec fn lower(s: Seq<char>) -> Seq<char> {
    s.map_values(|c: char| lower_char(c))
}

fn lower_char_exec(c: char) -> (r: char)
    ensures
        r == lower_char(c),
{
    let u = c as u32;
    if 65 <= u && u <= 90 {
        ((c as u8) + 32) as char
    } else {
        c
    }
}

/// Case-insensitive (ASCII) equality of two string slices.
fn eq_ignore_ascii_case(a: &str, b: &str) -> (r: bool)
    ensures
        r == (lower(a@) == lower(b@)),
{
    let na = a.unicode_len();
    let nb = b.unicode_len();
    if na != nb {
        proof {
            assert(lower(a@).len() != lower(b@).len());
        }
        return false;
    }
    let mut i: usize = 0;
    while i < na
        invariant
            i <= na,
            na == a@.len(),
            na == b@.len(),
            forall|j: int| 0 <= j < i ==> lower(a@)[j] == lower(b@)[j],
        decreases na - i,
    {
        let ca = lower_char_exec(a.get_char(i));
        let cb = lower_char_exec(b.get_char(i));
        if ca != cb {
            proof {
                assert(lower(a@)[i as int] != lower(b@)[i as int]);
            }
            return false;
        }
        i = i + 1;
    }
    proof {
        assert(lower(a@) =~= lower(b@));
    }
    true
}

/// Exact equality of two string slices.
pub(crate) fn str_eq(a: &str, b: &str) -> (r: bool)
    ensures
        r == (a@ == b@),
{
    let na = a.unicode_len();
    let nb = b.unicode_len();
    if na != nb {
        return false;
    }
    let mut i: usize = 0;
    while i < na
        invariant
            i <= na,
            na == a@.len(),
            na == b@.len(),
            forall|j: int| 0 <= j < i ==> a@[j] == b@[j],
        decreases na - i,
    {
        if a.get_char(i) != b.get_char(i) {
            return false;
        }
        i = i + 1;
    }
    proof {
        assert(a@ =~= b@);
    }
    true
}

/// Whether a declared content type names a PDF document.
pub open spec fn is_pdf_mime_spec(m: Seq<char>) -> bool {
    ||| lower(m) == "application/pdf"@
    ||| lower(m) == "application/x-pdf"@
}

/// Whether a declared content type is in the supported input image set.
pub open spec fn is_supported_image_mime_spec(m: Seq<char>) -> bool {
    ||| lower(m) == "image/png"@
    ||| lower(m) == "image/jpeg"@
    ||| lower(m) == "image/jpg"@
    ||| lower(m) == "image/pjpeg"@
}

proof fn lemma_lower_fixed(s: Seq<char>)
    requires
        forall|i: int| 0 <= i < s.len() ==> !(65 <= #[trigger] s[i] as u32 <= 90),
    ensures
        lower(s) == s,
{
    assert(lower(s) =~= s);
}

/// True exactly when `mime` names a PDF document (case-insensitive).
pub fn is_pdf_mime(mime: &str) -> (r: bool)
    ensures
        r == is_pdf_mime_spec(mime@),
{
    proof {
        reveal_strlit("application/pdf");
        reveal_strlit("application/x-pdf");
        lemma_lower_fixed("application/pdf"@);
        lemma_lower_fixed("application/x-pdf"@);
    }
    eq_ignore_ascii_case(mime, "application/pdf") || eq_ignore_ascii_case(mime, "application/x-pdf")
}

/// True exactly when `mime` is one of the supported image content types
/// (case-insensitive).
pub fn is_supported_image_mime(mime: &str) -> (r: bool)
    ensures
        r == is_supported_image_mime_spec(mime@),
{
    proof {
        reveal_strlit("image/png");
        reveal_strlit("image/jpeg");
        reveal_strlit("image/jpg");
        reveal_strlit("image/pjpeg");
        lemma_lower_fixed("image/png"@);
        lemma_lower_fixed("image/jpeg"@);
        lemma_lower_fixed("image/jpg"@);
        lemma_lower_fixed("image/pjpeg"@);
    }
    eq_ignore_ascii_case(mime, "image/png") || eq_ignore_ascii_case(mime, "image/jpeg")
        || eq_ignore_ascii_case(mime, "image/jpg") || eq_ignore_ascii_case(mime, "image/pjpeg")
}

} // verus!
