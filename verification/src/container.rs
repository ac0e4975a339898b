//! Container assembler: builds a minimal single-page PDF document around an
//! already-encoded JPEG image, byte by byte.
//!
//! The document holds exactly five objects with ids 1 through 5 (catalog,
//! page tree, page, image XObject, content stream), a cross-reference table
//! whose offsets are the exact byte positions of the objects in the output
//! buffer, and a trailer naming object 1 as the document root. The encoded
//! image bytes are embedded verbatim behind a `/DCTDecode` filter tag.

use vstd::prelude::*;

use crate::numfmt::ascii_bytes;
use crate::numfmt::dec_digits;
use crate::numfmt::dec_padded;
use crate::numfmt::lemma_dec_digits_len;
use crate::numfmt::lemma_dec_padded_len;
use crate::numfmt::pow10;
use crate::numfmt::push_ascii;
use crate::numfmt::push_decimal;
use crate::numfmt::push_decimal_padded10;

verus! {

/// Largest embedded image the assembler accepts, so that every byte offset
/// fits in the cross-reference table's fixed ten-digit field.
pub const MAX_EMBEDDED_IMAGE_LEN: u64 = 4_000_000_000;

/// The fixed format header line.
pub open spec fn pdf_header() -> Seq<u8> {
    ascii_bytes("%PDF-1.4\n"@)
}

/// Object 1: the catalog, referencing the page tree.
pub open spec fn obj_catalog() -> Seq<u8> {
    ascii_bytes("1 0 obj\n<< /Type /Catalog /Pages 2 0 R >>\nendobj\n"@)
}

/// Object 2: the page tree with exactly one child page.
pub open spec fn obj_pages() -> Seq<u8> {
    ascii_bytes("2 0 obj\n<< /Type /Pages /Kids [3 0 R] /Count 1 >>\nendobj\n"@)
}

/// Object 3: the page, with a page box from (0,0) to (w,h) in pixel units,
/// one named image resource pointing at object 4, and object 5 as contents.
pub open spec fn obj_page(w: nat, h: nat) -> Seq<u8> {
    ascii_bytes("3 0 obj\n<< /Type /Page /Parent 2 0 R /MediaBox [0 0 "@) + dec_digits(w)
        + ascii_bytes(" "@) + dec_digits(h)
        + ascii_bytes("] /Resources << /XObject << /Im0 4 0 R >> >> /Contents 5 0 R >>\nendobj\n"@)
}

/// Object 4: the image XObject; the encoded image bytes stand verbatim in its
/// stream section, and the declared `/Length` is exactly their count.
pub open spec fn obj_image(img: Seq<u8>, w: nat, h: nat) -> Seq<u8> {
    ascii_bytes("4 0 obj\n<< /Type /XObject /Subtype /Image /Width "@) + dec_digits(w)
        + ascii_bytes(" /Height "@) + dec_digits(h)
        + ascii_bytes(" /ColorSpace /DeviceRGB /BitsPerComponent 8 /Filter /DCTDecode /Length "@)
        + dec_digits(img.len()) + ascii_bytes(" >>\nstream\n"@) + img
        + ascii_bytes("\nendstream\nendobj\n"@)
}

/// The content stream's textual program: save state, scale the unit square to
/// (w,h) at the origin, paint the named image, restore state.
pub open spec fn content_ops(w: nat, h: nat) -> Seq<u8> {
    ascii_bytes("q\n"@) + dec_digits(w) + ascii_bytes(" 0 0 "@) + dec_digits(h)
        + ascii_bytes(" 0 0 cm\n/Im0 Do\nQ\n"@)
}

/// Object 5: the content stream, declaring its program's exact byte length.
pub open spec fn obj_content(w: nat, h: nat) -> Seq<u8> {
    ascii_bytes("5 0 obj\n<< /Length "@) + dec_digits(content_ops(w, h).len())
        + ascii_bytes(" >>\nstream\n"@) + content_ops(w, h) + ascii_bytes("\nendstream\nendobj\n"@)
}

/// Byte offset of object 1 in the document.
pub open spec fn off_catalog() -> nat {
    pdf_header().len()
}

/// Byte offset of object 2.
pub open spec fn off_pages() -> nat {
    off_catalog() + obj_catalog().len()
}

/// Byte offset of object 3.
pub open spec fn off_page() -> nat {
    off_pages() + obj_pages().len()
}

/// Byte offset of object 4.
pub open spec fn off_image(w: nat, h: nat) -> nat {
    off_page() + obj_page(w, h).len()
}

/// Byte offset of object 5.
pub open spec fn off_content(img: Seq<u8>, w: nat, h: nat) -> nat {
    off_image(w, h) + obj_image(img, w, h).len()
}

/// Byte offset of the cross-reference section.
pub open spec fn off_xref(img: Seq<u8>, w: nat, h: nat) -> nat {
    off_content(img, w, h) + obj_content(w, h).len()
}

/// One in-use cross-reference row: a ten-digit zero-padded offset, the fixed
/// generation number 00000, and the in-use flag.
pub open spec fn xref_entry(off: nat) -> Seq<u8> {
    dec_padded(off, 10) + ascii_bytes(" 00000 n \n"@)
}

/// The cross-reference section: a header row for six entries, the fixed free
/// head entry for object 0, then one row per object in ascending id order.
pub open spec fn xref_table(img: Seq<u8>, w: nat, h: nat) -> Seq<u8> {
    ascii_bytes("xref\n0 6\n0000000000 65535 f \n"@) + xref_entry(off_catalog()) + xref_entry(
        off_pages(),
    ) + xref_entry(off_page()) + xref_entry(off_image(w, h)) + xref_entry(
        off_content(img, w, h),
    )
}

/// The trailer: total size, object 1 as the document root, and the byte
/// offset of the cross-reference section.
pub open spec fn pdf_trailer(img: Seq<u8>, w: nat, h: nat) -> Seq<u8> {
    ascii_bytes("trailer\n<< /Size 6 /Root 1 0 R >>\nstartxref\n"@) + dec_digits(
        off_xref(img, w, h),
    ) + ascii_bytes("\n%%EOF\n"@)
}

/// The complete single-page document embedding `img` at page size (w,h).
pub open spec fn pdf_document(img: Seq<u8>, w: nat, h: nat) -> Seq<u8> {
    pdf_header() + obj_catalog() + obj_pages() + obj_page(w, h) + obj_image(img, w, h)
        + obj_content(w, h) + xref_table(img, w, h) + pdf_trailer(img, w, h)
}

/// Every recorded offset fits in the ten-digit cross-reference field when the
/// embedded image is within the accepted size.
pub proof fn lemma_offsets_bounded(img: Seq<u8>, w: nat, h: nat)
    requires
        w < 0x100000000,
        h < 0x100000000,
        img.len() <= MAX_EMBEDDED_IMAGE_LEN,
    ensures
        off_catalog() < off_pages() < off_page() < off_image(w, h) < off_content(img, w, h)
            < off_xref(img, w, h),
        off_xref(img, w, h) < 10_000_000_000,
{
    reveal_strlit("%PDF-1.4\n");
    reveal_strlit("1 0 obj\n<< /Type /Catalog /Pages 2 0 R >>\nendobj\n");
    reveal_strlit("2 0 obj\n<< /Type /Pages /Kids [3 0 R] /Count 1 >>\nendobj\n");
    reveal_strlit("3 0 obj\n<< /Type /Page /Parent 2 0 R /MediaBox [0 0 ");
    reveal_strlit(" ");
    reveal_strlit("] /Resources << /XObject << /Im0 4 0 R >> >> /Contents 5 0 R >>\nendobj\n");
    reveal_strlit("4 0 obj\n<< /Type /XObject /Subtype /Image /Width ");
    reveal_strlit(" /Height ");
    reveal_strlit(" /ColorSpace /DeviceRGB /BitsPerComponent 8 /Filter /DCTDecode /Length ");
    reveal_strlit(" >>\nstream\n");
    reveal_strlit("\nendstream\nendobj\n");
    reveal_strlit("q\n");
    reveal_strlit(" 0 0 ");
    reveal_strlit(" 0 0 cm\n/Im0 Do\nQ\n");
    reveal_strlit("5 0 obj\n<< /Length ");
    lemma_pow10_10();
    lemma_dec_digits_len(w, 10);
    lemma_dec_digits_len(h, 10);
    lemma_dec_digits_len(img.len(), 10);
    lemma_dec_digits_len(content_ops(w, h).len(), 10);
}

proof fn lemma_pow10_10()
    ensures
        pow10(10) == 10_000_000_000,
{
    reveal_with_fuel(pow10, 11);
}

/// Byte offset of the trailer section.
pub open spec fn off_trailer(img: Seq<u8>, w: nat, h: nat) -> nat {
    off_xref(img, w, h) + xref_table(img, w, h).len()
}

/// Byte position of cross-reference row `k` (row 0 is the free head entry,
/// rows 1 through 5 belong to objects 1 through 5).
pub open spec fn xref_row_pos(img: Seq<u8>, w: nat, h: nat, k: nat) -> nat {
    off_xref(img, w, h) + 9 + 20 * k
}

/// Byte position at which the embedded image bytes start inside object 4.
pub open spec fn image_stream_pos(img: Seq<u8>, w: nat, h: nat) -> nat {
    image_length_field_pos(img, w, h) + dec_digits(img.len()).len() + ascii_bytes(
        " >>\nstream\n"@,
    ).len()
}

/// Byte position of the digits of the declared `/Length` inside object 4.
pub open spec fn image_length_field_pos(img: Seq<u8>, w: nat, h: nat) -> nat {
    off_image(w, h) + ascii_bytes("4 0 obj\n<< /Type /XObject /Subtype /Image /Width "@).len()
        + dec_digits(w).len() + ascii_bytes(" /Height "@).len() + dec_digits(h).len()
        + ascii_bytes(
        " /ColorSpace /DeviceRGB /BitsPerComponent 8 /Filter /DCTDecode /Length "@,
    ).len()
}

proof fn lemma_slice_of_concat(pre: Seq<u8>, mid: Seq<u8>, post: Seq<u8>, n: int)
    requires
        0 <= n <= mid.len(),
    ensures
        (pre + mid + post).subrange(pre.len() as int, pre.len() + n) == mid.subrange(0, n),
{
    assert((pre + mid + post).subrange(pre.len() as int, pre.len() + n) =~= mid.subrange(0, n));
}

/// Structural validity of the assembled container, for any embedded bytes and
/// any dimensions: the document starts with the fixed header marker; the five
/// objects stand in ascending id order exactly at the offsets the
/// cross-reference table records, each beginning with its `k 0 obj` marker;
/// the cross-reference rows are fixed-width and hold those offsets; the
/// trailer names object 1 as the document root; the declared stream `/Length`
/// digits are exactly the decimal byte count of the embedded image, and the
/// embedded image bytes stand verbatim after the stream marker.
pub proof fn lemma_container_structure(img: Seq<u8>, w: nat, h: nat)
    ensures
        pdf_document(img, w, h).subrange(0, pdf_header().len() as int) == pdf_header(),
        pdf_document(img, w, h).subrange(
            off_catalog() as int,
            off_catalog() as int + 7,
        ) == ascii_bytes("1 0 obj"@),
        pdf_document(img, w, h).subrange(
            off_pages() as int,
            off_pages() as int + 7,
        ) == ascii_bytes("2 0 obj"@),
        pdf_document(img, w, h).subrange(
            off_page() as int,
            off_page() as int + 7,
        ) == ascii_bytes("3 0 obj"@),
        pdf_document(img, w, h).subrange(
            off_image(w, h) as int,
            off_image(w, h) as int + 7,
        ) == ascii_bytes("4 0 obj"@),
        pdf_document(img, w, h).subrange(
            off_content(img, w, h) as int,
            off_content(img, w, h) as int + 7,
        ) == ascii_bytes("5 0 obj"@),
        pdf_document(img, w, h).subrange(
            xref_row_pos(img, w, h, 0) as int,
            xref_row_pos(img, w, h, 0) as int + 20,
        ) == ascii_bytes("0000000000 65535 f \n"@),
        pdf_document(img, w, h).subrange(
            xref_row_pos(img, w, h, 1) as int,
            xref_row_pos(img, w, h, 1) as int + 20,
        ) == xref_entry(off_catalog()),
        pdf_document(img, w, h).subrange(
            xref_row_pos(img, w, h, 2) as int,
            xref_row_pos(img, w, h, 2) as int + 20,
        ) == xref_entry(off_pages()),
        pdf_document(img, w, h).subrange(
            xref_row_pos(img, w, h, 3) as int,
            xref_row_pos(img, w, h, 3) as int + 20,
        ) == xref_entry(off_page()),
        pdf_document(img, w, h).subrange(
            xref_row_pos(img, w, h, 4) as int,
            xref_row_pos(img, w, h, 4) as int + 20,
        ) == xref_entry(off_image(w, h)),
        pdf_document(img, w, h).subrange(
            xref_row_pos(img, w, h, 5) as int,
            xref_row_pos(img, w, h, 5) as int + 20,
        ) == xref_entry(off_content(img, w, h)),
        pdf_document(img, w, h).subrange(
            off_trailer(img, w, h) as int,
            off_trailer(img, w, h) as int + ascii_bytes(
                "trailer\n<< /Size 6 /Root 1 0 R >>\nstartxref\n"@,
            ).len() as int,
        ) == ascii_bytes("trailer\n<< /Size 6 /Root 1 0 R >>\nstartxref\n"@),
        pdf_document(img, w, h).subrange(
            image_length_field_pos(img, w, h) as int,
            image_stream_pos(img, w, h) as int,
        ) == dec_digits(img.len()) + ascii_bytes(" >>\nstream\n"@),
        pdf_document(img, w, h).subrange(
            image_stream_pos(img, w, h) as int,
            image_stream_pos(img, w, h) as int + img.len() as int,
        ) == img,
{
    lemma_doc_markers(img, w, h);
    lemma_doc_xref_rows(img, w, h);
    lemma_doc_trailer_and_stream(img, w, h);
}

#[verifier::rlimit(60)]
proof fn lemma_doc_markers(img: Seq<u8>, w: nat, h: nat)
    ensures
        pdf_document(img, w, h).subrange(0, pdf_header().len() as int) == pdf_header(),
        pdf_document(img, w, h).subrange(
            off_catalog() as int,
            off_catalog() as int + 7,
        ) == ascii_bytes("1 0 obj"@),
        pdf_document(img, w, h).subrange(
            off_pages() as int,
            off_pages() as int + 7,
        ) == ascii_bytes("2 0 obj"@),
        pdf_document(img, w, h).subrange(
            off_page() as int,
            off_page() as int + 7,
        ) == ascii_bytes("3 0 obj"@),
        pdf_document(img, w, h).subrange(
            off_image(w, h) as int,
            off_image(w, h) as int + 7,
        ) == ascii_bytes("4 0 obj"@),
        pdf_document(img, w, h).subrange(
            off_content(img, w, h) as int,
            off_content(img, w, h) as int + 7,
        ) == ascii_bytes("5 0 obj"@),
{
    let doc = pdf_document(img, w, h);
    let hd = pdf_header();
    let o1 = obj_catalog();
    let o2 = obj_pages();
    let o3 = obj_page(w, h);
    let o4 = obj_image(img, w, h);
    let o5 = obj_content(w, h);
    let xt = xref_table(img, w, h);
    let tr = pdf_trailer(img, w, h);
    reveal_strlit("%PDF-1.4\n");
    reveal_strlit("1 0 obj");
    reveal_strlit("2 0 obj");
    reveal_strlit("3 0 obj");
    reveal_strlit("4 0 obj");
    reveal_strlit("5 0 obj");
    reveal_strlit("1 0 obj\n<< /Type /Catalog /Pages 2 0 R >>\nendobj\n");
    reveal_strlit("2 0 obj\n<< /Type /Pages /Kids [3 0 R] /Count 1 >>\nendobj\n");
    reveal_strlit("3 0 obj\n<< /Type /Page /Parent 2 0 R /MediaBox [0 0 ");
    reveal_strlit("4 0 obj\n<< /Type /XObject /Subtype /Image /Width ");
    reveal_strlit("5 0 obj\n<< /Length ");
    assert(doc.subrange(0, hd.len() as int) =~= hd);
    assert(o1.subrange(0, 7) =~= ascii_bytes("1 0 obj"@));
    assert(doc =~= hd + o1 + (o2 + o3 + o4 + o5 + xt + tr));
    lemma_slice_of_concat(hd, o1, o2 + o3 + o4 + o5 + xt + tr, 7);
    assert(o2.subrange(0, 7) =~= ascii_bytes("2 0 obj"@));
    assert(doc =~= (hd + o1) + o2 + (o3 + o4 + o5 + xt + tr));
    lemma_slice_of_concat(hd + o1, o2, o3 + o4 + o5 + xt + tr, 7);
    assert(o3.subrange(0, 7) =~= ascii_bytes("3 0 obj"@));
    assert(doc =~= (hd + o1 + o2) + o3 + (o4 + o5 + xt + tr));
    lemma_slice_of_concat(hd + o1 + o2, o3, o4 + o5 + xt + tr, 7);
    assert(o4.subrange(0, 7) =~= ascii_bytes("4 0 obj"@));
    assert(doc =~= (hd + o1 + o2 + o3) + o4 + (o5 + xt + tr));
    lemma_slice_of_concat(hd + o1 + o2 + o3, o4, o5 + xt + tr, 7);
    assert(o5.subrange(0, 7) =~= ascii_bytes("5 0 obj"@));
    assert(doc =~= (hd + o1 + o2 + o3 + o4) + o5 + (xt + tr));
    lemma_slice_of_concat(hd + o1 + o2 + o3 + o4, o5, xt + tr, 7);
}

#[verifier::rlimit(60)]
proof fn lemma_doc_xref_rows(img: Seq<u8>, w: nat, h: nat)
    ensures
        pdf_document(img, w, h).subrange(
            xref_row_pos(img, w, h, 0) as int,
            xref_row_pos(img, w, h, 0) as int + 20,
        ) == ascii_bytes("0000000000 65535 f \n"@),
        pdf_document(img, w, h).subrange(
            xref_row_pos(img, w, h, 1) as int,
            xref_row_pos(img, w, h, 1) as int + 20,
        ) == xref_entry(off_catalog()),
        pdf_document(img, w, h).subrange(
            xref_row_pos(img, w, h, 2) as int,
            xref_row_pos(img, w, h, 2) as int + 20,
        ) == xref_entry(off_pages()),
        pdf_document(img, w, h).subrange(
            xref_row_pos(img, w, h, 3) as int,
            xref_row_pos(img, w, h, 3) as int + 20,
        ) == xref_entry(off_page()),
        pdf_document(img, w, h).subrange(
            xref_row_pos(img, w, h, 4) as int,
            xref_row_pos(img, w, h, 4) as int + 20,
        ) == xref_entry(off_image(w, h)),
        pdf_document(img, w, h).subrange(
            xref_row_pos(img, w, h, 5) as int,
            xref_row_pos(img, w, h, 5) as int + 20,
        ) == xref_entry(off_content(img, w, h)),
{
    let doc = pdf_document(img, w, h);
    let hd = pdf_header();
    let o1 = obj_catalog();
    let o2 = obj_pages();
    let o3 = obj_page(w, h);
    let o4 = obj_image(img, w, h);
    let o5 = obj_content(w, h);
    let xt = xref_table(img, w, h);
    let tr = pdf_trailer(img, w, h);
    let xh = ascii_bytes("xref\n0 6\n0000000000 65535 f \n"@);
    let e1 = xref_entry(off_catalog());
    let e2 = xref_entry(off_pages());
    let e3 = xref_entry(off_page());
    let e4 = xref_entry(off_image(w, h));
    let e5 = xref_entry(off_content(img, w, h));
    lemma_dec_padded_len(off_catalog(), 10);
    lemma_dec_padded_len(off_pages(), 10);
    lemma_dec_padded_len(off_page(), 10);
    lemma_dec_padded_len(off_image(w, h), 10);
    lemma_dec_padded_len(off_content(img, w, h), 10);
    reveal_strlit("xref\n0 6\n0000000000 65535 f \n");
    reveal_strlit("0000000000 65535 f \n");
    reveal_strlit(" 00000 n \n");
    let pre = hd + o1 + o2 + o3 + o4 + o5;
    assert(doc =~= (pre + xh.subrange(0, 9)) + xh.subrange(9, 29) + (e1 + e2 + e3 + e4 + e5 + tr));
    lemma_slice_of_concat(
        pre + xh.subrange(0, 9),
        xh.subrange(9, 29),
        e1 + e2 + e3 + e4 + e5 + tr,
        20,
    );
    assert(xh.subrange(9, 29) =~= ascii_bytes("0000000000 65535 f \n"@));
    assert(doc =~= (pre + xh) + e1 + (e2 + e3 + e4 + e5 + tr));
    lemma_slice_of_concat(pre + xh, e1, e2 + e3 + e4 + e5 + tr, 20);
    assert(doc =~= (pre + xh + e1) + e2 + (e3 + e4 + e5 + tr));
    lemma_slice_of_concat(pre + xh + e1, e2, e3 + e4 + e5 + tr, 20);
    assert(doc =~= (pre + xh + e1 + e2) + e3 + (e4 + e5 + tr));
    lemma_slice_of_concat(pre + xh + e1 + e2, e3, e4 + e5 + tr, 20);
    assert(doc =~= (pre + xh + e1 + e2 + e3) + e4 + (e5 + tr));
    lemma_slice_of_concat(pre + xh + e1 + e2 + e3, e4, e5 + tr, 20);
    assert(doc =~= (pre + xh + e1 + e2 + e3 + e4) + e5 + tr);
    lemma_slice_of_concat(pre + xh + e1 + e2 + e3 + e4, e5, tr, 20);
}

#[verifier::rlimit(60)]
proof fn lemma_doc_trailer_and_stream(img: Seq<u8>, w: nat, h: nat)
    ensures
        pdf_document(img, w, h).subrange(
            off_trailer(img, w, h) as int,
            off_trailer(img, w, h) as int + ascii_bytes(
                "trailer\n<< /Size 6 /Root 1 0 R >>\nstartxref\n"@,
            ).len() as int,
        ) == ascii_bytes("trailer\n<< /Size 6 /Root 1 0 R >>\nstartxref\n"@),
        pdf_document(img, w, h).subrange(
            image_length_field_pos(img, w, h) as int,
            image_stream_pos(img, w, h) as int,
        ) == dec_digits(img.len()) + ascii_bytes(" >>\nstream\n"@),
        pdf_document(img, w, h).subrange(
            image_stream_pos(img, w, h) as int,
            image_stream_pos(img, w, h) as int + img.len() as int,
        ) == img,
{
    let doc = pdf_document(img, w, h);
    let hd = pdf_header();
    let o1 = obj_catalog();
    let o2 = obj_pages();
    let o3 = obj_page(w, h);
    let o4 = obj_image(img, w, h);
    let o5 = obj_content(w, h);
    let xt = xref_table(img, w, h);
    let tr = pdf_trailer(img, w, h);
    let pre = hd + o1 + o2 + o3 + o4 + o5;
    let tl = ascii_bytes("trailer\n<< /Size 6 /Root 1 0 R >>\nstartxref\n"@);
    assert(doc =~= (pre + xt) + tl + (dec_digits(off_xref(img, w, h)) + ascii_bytes("\n%%EOF\n"@)));
    lemma_slice_of_concat(
        pre + xt,
        tl,
        dec_digits(off_xref(img, w, h)) + ascii_bytes("\n%%EOF\n"@),
        tl.len() as int,
    );
    assert(tl.subrange(0, tl.len() as int) =~= tl);
    lemma_doc_stream(img, w, h);
}

proof fn lemma_slice_of_concat_mid(pre: Seq<u8>, mid: Seq<u8>, post: Seq<u8>, a: int, b: int)
    requires
        0 <= a <= b <= mid.len(),
    ensures
        (pre + mid + post).subrange(pre.len() + a, pre.len() + b) == mid.subrange(a, b),
{
    assert((pre + mid + post).subrange(pre.len() + a, pre.len() + b) =~= mid.subrange(a, b));
}

#[verifier::rlimit(60)]
proof fn lemma_doc_stream(img: Seq<u8>, w: nat, h: nat)
    ensures
        pdf_document(img, w, h).subrange(
            image_length_field_pos(img, w, h) as int,
            image_stream_pos(img, w, h) as int,
        ) == dec_digits(img.len()) + ascii_bytes(" >>\nstream\n"@),
        pdf_document(img, w, h).subrange(
            image_stream_pos(img, w, h) as int,
            image_stream_pos(img, w, h) as int + img.len() as int,
        ) == img,
{
    let doc = pdf_document(img, w, h);
    let hd = pdf_header();
    let o1 = obj_catalog();
    let o2 = obj_pages();
    let o3 = obj_page(w, h);
    let o4 = obj_image(img, w, h);
    let o5 = obj_content(w, h);
    let xt = xref_table(img, w, h);
    let tr = pdf_trailer(img, w, h);
    let ia = ascii_bytes("4 0 obj\n<< /Type /XObject /Subtype /Image /Width "@);
    let ib = ascii_bytes(" /Height "@);
    let ic = ascii_bytes(
        " /ColorSpace /DeviceRGB /BitsPerComponent 8 /Filter /DCTDecode /Length "@,
    );
    let id = ascii_bytes(" >>\nstream\n"@);
    let ie = ascii_bytes("\nendstream\nendobj\n"@);
    let iprefix = ia + dec_digits(w) + ib + dec_digits(h) + ic;
    let lenfield = dec_digits(img.len()) + id;
    let pre4 = hd + o1 + o2 + o3;
    let a = iprefix.len() as int;
    let b = a + lenfield.len() as int;
    let c = b + img.len() as int;
    assert(doc =~= pre4 + o4 + (o5 + xt + tr));
    assert(o4 =~= iprefix + lenfield + (img + ie));
    lemma_slice_of_concat_mid(pre4, o4, o5 + xt + tr, a, b);
    lemma_slice_of_concat_mid(iprefix, lenfield, img + ie, 0, lenfield.len() as int);
    assert(lenfield.subrange(0, lenfield.len() as int) =~= lenfield);
    lemma_slice_of_concat_mid(pre4, o4, o5 + xt + tr, b, c);
    assert(o4 =~= (iprefix + lenfield) + img + ie);
    lemma_slice_of_concat_mid(iprefix + lenfield, img, ie, 0, img.len() as int);
    assert(img.subrange(0, img.len() as int) =~= img);
}

/// Assemble the complete single-page document around the encoded image bytes
/// and the pixel dimensions they were encoded at. The output is byte-exact:
/// it equals `pdf_document(image_bytes@, width, height)`.
#[verifier::rlimit(100)]
pub fn assemble_pdf(image_bytes: &Vec<u8>, width: u32, height: u32) -> (out: Vec<u8>)
    requires
        image_bytes@.len() <= MAX_EMBEDDED_IMAGE_LEN,
    ensures
        out@ == pdf_document(image_bytes@, width as nat, height as nat),
{
    let ghost iseq = image_bytes@;
    let ghost wn = width as nat;
    let ghost hn = height as nat;
    let mut out: Vec<u8> = Vec::new();
    push_ascii(&mut out, "%PDF-1.4\n");
    assert(out@ =~= pdf_header());
    let off1: u64 = out.len() as u64;
    push_ascii(&mut out, "1 0 obj\n<< /Type /Catalog /Pages 2 0 R >>\nendobj\n");
    assert(out@ =~= pdf_header() + obj_catalog());
    let off2: u64 = out.len() as u64;
    push_ascii(&mut out, "2 0 obj\n<< /Type /Pages /Kids [3 0 R] /Count 1 >>\nendobj\n");
    assert(out@ =~= pdf_header() + obj_catalog() + obj_pages());
    let off3: u64 = out.len() as u64;
    push_ascii(&mut out, "3 0 obj\n<< /Type /Page /Parent 2 0 R /MediaBox [0 0 ");
    push_decimal(&mut out, width as u64);
    push_ascii(&mut out, " ");
    push_decimal(&mut out, height as u64);
    push_ascii(&mut out, "] /Resources << /XObject << /Im0 4 0 R >> >> /Contents 5 0 R >>\nendobj\n");
    assert(out@ =~= pdf_header() + obj_catalog() + obj_pages() + obj_page(wn, hn));
    let off4: u64 = out.len() as u64;
    push_ascii(&mut out, "4 0 obj\n<< /Type /XObject /Subtype /Image /Width ");
    push_decimal(&mut out, width as u64);
    push_ascii(&mut out, " /Height ");
    push_decimal(&mut out, height as u64);
    push_ascii(&mut out, " /ColorSpace /DeviceRGB /BitsPerComponent 8 /Filter /DCTDecode /Length ");
    push_decimal(&mut out, image_bytes.len() as u64);
    push_ascii(&mut out, " >>\nstream\n");
    out.extend_from_slice(image_bytes.as_slice());
    push_ascii(&mut out, "\nendstream\nendobj\n");
    assert(out@ =~= pdf_header() + obj_catalog() + obj_pages() + obj_page(wn, hn) + obj_image(
        iseq,
        wn,
        hn,
    ));
    let off5: u64 = out.len() as u64;
    let mut ops: Vec<u8> = Vec::new();
    push_ascii(&mut ops, "q\n");
    push_decimal(&mut ops, width as u64);
    push_ascii(&mut ops, " 0 0 ");
    push_decimal(&mut ops, height as u64);
    push_ascii(&mut ops, " 0 0 cm\n/Im0 Do\nQ\n");
    assert(ops@ =~= content_ops(wn, hn));
    push_ascii(&mut out, "5 0 obj\n<< /Length ");
    push_decimal(&mut out, ops.len() as u64);
    push_ascii(&mut out, " >>\nstream\n");
    out.extend_from_slice(ops.as_slice());
    push_ascii(&mut out, "\nendstream\nendobj\n");
    assert(out@ =~= pdf_header() + obj_catalog() + obj_pages() + obj_page(wn, hn) + obj_image(
        iseq,
        wn,
        hn,
    ) + obj_content(wn, hn));
    let xref_pos: u64 = out.len() as u64;
    proof {
        lemma_offsets_bounded(iseq, wn, hn);
        assert(off1 as nat == off_catalog());
        assert(off2 as nat == off_pages());
        assert(off3 as nat == off_page());
        assert(off4 as nat == off_image(wn, hn));
        assert(off5 as nat == off_content(iseq, wn, hn));
        assert(xref_pos as nat == off_xref(iseq, wn, hn));
    }
    push_ascii(&mut out, "xref\n0 6\n0000000000 65535 f \n");
    push_decimal_padded10(&mut out, off1);
    push_ascii(&mut out, " 00000 n \n");
    push_decimal_padded10(&mut out, off2);
    push_ascii(&mut out, " 00000 n \n");
    push_decimal_padded10(&mut out, off3);
    push_ascii(&mut out, " 00000 n \n");
    push_decimal_padded10(&mut out, off4);
    push_ascii(&mut out, " 00000 n \n");
    push_decimal_padded10(&mut out, off5);
    push_ascii(&mut out, " 00000 n \n");
    assert(out@ =~= pdf_header() + obj_catalog() + obj_pages() + obj_page(wn, hn) + obj_image(
        iseq,
        wn,
        hn,
    ) + obj_content(wn, hn) + xref_table(iseq, wn, hn));
    push_ascii(&mut out, "trailer\n<< /Size 6 /Root 1 0 R >>\nstartxref\n");
    push_decimal(&mut out, xref_pos);
    push_ascii(&mut out, "\n%%EOF\n");
    assert(out@ =~= pdf_document(iseq, wn, hn));
    out
}

} // verus!
