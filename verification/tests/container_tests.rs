use cvdoc::container::assemble_pdf;

fn find(haystack: &[u8], needle: &[u8]) -> Option<usize> {
    if needle.is_empty() || haystack.len() < needle.len() {
        return None;
    }
    (0..=haystack.len() - needle.len()).find(|&i| &haystack[i..i + needle.len()] == needle)
}

fn parse_digits(bytes: &[u8]) -> usize {
    let mut n: usize = 0;
    for &b in bytes {
        assert!(b.is_ascii_digit());
        n = n * 10 + (b - b'0') as usize;
    }
    n
}

#[test]
fn starts_with_the_header_marker() {
    let doc = assemble_pdf(&b"ABC".to_vec(), 3, 4);
    assert!(doc.starts_with(b"%PDF-1.4\n"));
}

#[test]
fn xref_offsets_point_at_object_markers() {
    let doc = assemble_pdf(&b"ABC".to_vec(), 3, 4);
    let xref_pos = find(&doc, b"xref\n0 6\n").expect("cross-reference section");
    // free head entry
    assert_eq!(&doc[xref_pos + 9..xref_pos + 29], b"0000000000 65535 f \n");
    for k in 1..=5usize {
        let row = xref_pos + 9 + 20 * k;
        let entry = &doc[row..row + 20];
        assert_eq!(&entry[10..], b" 00000 n \n");
        let off = parse_digits(&entry[..10]);
        let marker = format!("{} 0 obj", k);
        assert_eq!(
            &doc[off..off + marker.len()],
            marker.as_bytes(),
            "row {} must point at its object marker",
            k
        );
    }
}

#[test]
fn trailer_names_object_one_as_root() {
    let doc = assemble_pdf(&b"ABC".to_vec(), 3, 4);
    assert!(find(&doc, b"trailer\n<< /Size 6 /Root 1 0 R >>\nstartxref\n").is_some());
    assert!(doc.ends_with(b"\n%%EOF\n"));
}

#[test]
fn startxref_gives_the_cross_reference_position() {
    let doc = assemble_pdf(&b"ABC".to_vec(), 3, 4);
    let xref_pos = find(&doc, b"xref\n0 6\n").expect("cross-reference section");
    let sx = find(&doc, b"startxref\n").expect("startxref") + "startxref\n".len();
    let end = find(&doc[sx..], b"\n").expect("newline after offset") + sx;
    assert_eq!(parse_digits(&doc[sx..end]), xref_pos);
}

#[test]
fn stream_length_equals_embedded_byte_count() {
    let img = b"not really a jpeg, but embedded verbatim".to_vec();
    let doc = assemble_pdf(&img, 120, 90);
    let decl = format!("/Length {} >>\nstream\n", img.len());
    let p = find(&doc, decl.as_bytes()).expect("image stream length declaration");
    let start = p + decl.len();
    assert_eq!(&doc[start..start + img.len()], img.as_slice());
    assert_eq!(&doc[start + img.len()..start + img.len() + 11], b"\nendstream\n");
}

#[test]
fn page_box_and_image_dictionary_carry_the_dimensions() {
    let doc = assemble_pdf(&b"JJ".to_vec(), 1500, 2000);
    assert!(find(&doc, b"/MediaBox [0 0 1500 2000]").is_some());
    assert!(find(&doc, b"/Width 1500 /Height 2000").is_some());
    assert!(find(&doc, b"/ColorSpace /DeviceRGB /BitsPerComponent 8 /Filter /DCTDecode").is_some());
    assert!(find(&doc, b"/XObject << /Im0 4 0 R >>").is_some());
    assert!(find(&doc, b"q\n1500 0 0 2000 0 0 cm\n/Im0 Do\nQ\n").is_some());
}

#[test]
fn content_stream_declares_its_own_length() {
    let doc = assemble_pdf(&b"JJ".to_vec(), 7, 9);
    let ops = b"q\n7 0 0 9 0 0 cm\n/Im0 Do\nQ\n";
    let decl = format!("5 0 obj\n<< /Length {} >>\nstream\n", ops.len());
    let p = find(&doc, decl.as_bytes()).expect("content stream declaration");
    let start = p + decl.len();
    assert_eq!(&doc[start..start + ops.len()], ops.as_slice());
}

#[test]
fn empty_image_bytes_still_assemble() {
    let doc = assemble_pdf(&Vec::new(), 1, 1);
    assert!(doc.starts_with(b"%PDF-1.4\n"));
    assert!(find(&doc, b"/Length 0 >>\nstream\n\nendstream\nendobj\n").is_some());
}
