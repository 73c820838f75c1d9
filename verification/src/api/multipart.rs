//! `multipart/form-data` encoding for the image-upload request: text fields
//! and file parts framed by a random boundary line, as RFC 2046 lays it out.

use vstd::prelude::*;
use vstd::utf8::encode_utf8;

use rand::Rng;

use crate::api::RequestBody;

verus! {

/// One file part: its bytes, the field name, and the optional file name and
/// content type sent with it.
pub struct MultipartFile {
    pub data: Vec<u8>,
    pub name: String,
    pub filename: Option<String>,
    pub mime: Option<String>,
}

impl MultipartFile {
    pub fn new(name: &str, data: Vec<u8>, filename: Option<String>) -> (r: MultipartFile)
        ensures
            r.name@ == name@,
            r.data == data,
            r.filename == filename,
            r.mime is None,
    {
        MultipartFile { data, name: name.to_owned(), filename, mime: None }
    }
}

/// A multipart body under construction: the boundary drawn at creation, the
/// text fields, and the files, in the order they were added.
pub struct Multipart {
    boundary: String,
    text_fields: Vec<(String, String)>,
    files: Vec<MultipartFile>,
}

pub open spec fn spec_alphanumeric(c: char) -> bool {
    ('0' <= c && c <= '9') || ('a' <= c && c <= 'z') || ('A' <= c && c <= 'Z')
}

/// Relies on `rand::thread_rng` and the `Alphanumeric` distribution: whatever
/// the draws, each sampled byte is an ASCII letter or digit, and exactly 65
/// are taken.
#[verifier::external_body]
fn random_boundary() -> (r: String)
    ensures
        r@.len() == 65,
        forall|i: int| 0 <= i < r@.len() ==> spec_alphanumeric(#[trigger] r@[i]),
{
    let mut rng = rand::thread_rng();
    core::iter::repeat(())
        .map(|()| char::from(rng.sample(rand::distributions::Alphanumeric)))
        .take(65)
        .collect()
}

/// The opening of every part: the boundary line and the disposition header
/// up to and including the field name.
pub open spec fn spec_part_head(boundary: Seq<char>, name: Seq<char>) -> Seq<u8> {
    encode_utf8("--"@) + encode_utf8(boundary) + encode_utf8("\r\n"@) + encode_utf8(
        "Content-Disposition:form-data; name=\""@,
    ) + encode_utf8(name)
}

/// The ` filename="..";` clause of a file part, when a file name was given.
pub open spec fn spec_filename_clause(filename: Option<String>) -> Seq<u8> {
    match filename {
        Some(n) => encode_utf8(" filename=\""@) + encode_utf8(n@) + encode_utf8("\";"@),
        None => Seq::<u8>::empty(),
    }
}

/// The content-type header of a file part, falling back to
/// `application/octet-stream`, and the blank line after it.
pub open spec fn spec_content_type_clause(mime: Option<String>) -> Seq<u8> {
    encode_utf8("Content-Type: "@) + encode_utf8(
        match mime {
            Some(m) => m@,
            None => "application/octet-stream"@,
        },
    ) + encode_utf8("\r\n\r\n"@)
}

/// The bytes of one text part: boundary line, disposition header naming the
/// field, blank line, the value, line break.
pub open spec fn spec_text_part(boundary: Seq<char>, name: Seq<char>, value: Seq<char>) -> Seq<
    u8,
> {
    spec_part_head(boundary, name) + encode_utf8("\"\r\n\r\n"@) + encode_utf8(value)
        + encode_utf8("\r\n"@)
}

/// The bytes of one file part: boundary line, disposition header with the
/// field name and optional file name, content type, blank line, the raw
/// bytes, line break.
pub open spec fn spec_file_part(boundary: Seq<char>, f: MultipartFile) -> Seq<u8> {
    spec_part_head(boundary, f.name@) + encode_utf8("\";"@) + spec_filename_clause(f.filename)
        + encode_utf8("\r\n"@) + spec_content_type_clause(f.mime) + f.data@ + encode_utf8(
        "\r\n"@,
    )
}

pub open spec fn spec_text_parts(boundary: Seq<char>, fields: Seq<(String, String)>) -> Seq<u8>
    decreases fields.len(),
{
    if fields.len() == 0 {
        Seq::<u8>::empty()
    } else {
        spec_text_parts(boundary, fields.drop_last()) + spec_text_part(
            boundary,
            fields.last().0@,
            fields.last().1@,
        )
    }
}

pub open spec fn spec_file_parts(boundary: Seq<char>, files: Seq<MultipartFile>) -> Seq<u8>
    decreases files.len(),
{
    if files.len() == 0 {
        Seq::<u8>::empty()
    } else {
        spec_file_parts(boundary, files.drop_last()) + spec_file_part(boundary, files.last())
    }
}

/// The whole body: every text part, every file part, then the closing
/// boundary line with its two extra hyphens.
pub open spec fn spec_multipart_body(
    boundary: Seq<char>,
    fields: Seq<(String, String)>,
    files: Seq<MultipartFile>,
) -> Seq<u8> {
    spec_text_parts(boundary, fields) + spec_file_parts(boundary, files) + encode_utf8("--"@)
        + encode_utf8(boundary) + encode_utf8("--\r\n"@)
}

/// Append the UTF-8 bytes of `s`.
fn push_str_bytes(data: &mut Vec<u8>, s: &str)
    ensures
        final(data)@ == old(data)@ + encode_utf8(s@),
{
    data.extend_from_slice(s.as_bytes());
}

/// Append the opening of a part.
fn push_part_head(data: &mut Vec<u8>, boundary: &str, name: &str)
    ensures
        final(data)@ == old(data)@ + spec_part_head(boundary@, name@),
{
    push_str_bytes(data, "--");
    push_str_bytes(data, boundary);
    push_str_bytes(data, "\r\n");
    push_str_bytes(data, "Content-Disposition:form-data; name=\"");
    push_str_bytes(data, name);
    proof {
        assert(final(data)@ =~= old(data)@ + spec_part_head(boundary@, name@));
    }
}

/// Append the filename clause of a file part.
fn push_filename_clause(data: &mut Vec<u8>, filename: &Option<String>)
    ensures
        final(data)@ == old(data)@ + spec_filename_clause(*filename),
{
    match filename {
        None => {},
        Some(n) => {
            push_str_bytes(data, " filename=\"");
            push_str_bytes(data, n.as_str());
            push_str_bytes(data, "\";");
        },
    }
    proof {
        assert(final(data)@ =~= old(data)@ + spec_filename_clause(*filename));
    }
}

/// Append the content-type header of a file part.
fn push_content_type_clause(data: &mut Vec<u8>, mime: &Option<String>)
    ensures
        final(data)@ == old(data)@ + spec_content_type_clause(*mime),
{
    push_str_bytes(data, "Content-Type: ");
    match mime {
        Some(m) => push_str_bytes(data, m.as_str()),
        None => push_str_bytes(data, "application/octet-stream"),
    }
    push_str_bytes(data, "\r\n\r\n");
    proof {
        assert(final(data)@ =~= old(data)@ + spec_content_type_clause(*mime));
    }
}

/// Append one text part.
fn push_text_part(data: &mut Vec<u8>, boundary: &str, name: &str, value: &str)
    ensures
        final(data)@ == old(data)@ + spec_text_part(boundary@, name@, value@),
{
    push_part_head(data, boundary, name);
    push_str_bytes(data, "\"\r\n\r\n");
    push_str_bytes(data, value);
    push_str_bytes(data, "\r\n");
    proof {
        assert(final(data)@ =~= old(data)@ + spec_text_part(boundary@, name@, value@));
    }
}

/// Append one file part.
fn push_file_part(data: &mut Vec<u8>, boundary: &str, f: &MultipartFile)
    ensures
        final(data)@ == old(data)@ + spec_file_part(boundary@, *f),
{
    push_part_head(data, boundary, f.name.as_str());
    push_str_bytes(data, "\";");
    push_filename_clause(data, &f.filename);
    push_str_bytes(data, "\r\n");
    push_content_type_clause(data, &f.mime);
    data.extend_from_slice(f.data.as_slice());
    push_str_bytes(data, "\r\n");
    proof {
        assert(final(data)@ =~= old(data)@ + spec_file_part(boundary@, *f));
    }
}

impl Multipart {
    pub closed spec fn spec_boundary(&self) -> Seq<char> {
        self.boundary@
    }

    pub closed spec fn spec_texts(&self) -> Seq<(String, String)> {
        self.text_fields@
    }

    pub closed spec fn spec_files(&self) -> Seq<MultipartFile> {
        self.files@
    }

    pub fn new() -> (r: Multipart)
        ensures
            r.spec_boundary().len() == 65,
            forall|i: int|
                0 <= i < r.spec_boundary().len() ==> spec_alphanumeric(#[trigger] r.spec_boundary()[i]),
            r.spec_texts() == Seq::<(String, String)>::empty(),
            r.spec_files() == Seq::<MultipartFile>::empty(),
    {
        let r = Multipart { boundary: random_boundary(), text_fields: Vec::new(), files: Vec::new() };
        proof {
            assert(r.spec_texts() =~= Seq::<(String, String)>::empty());
            assert(r.spec_files() =~= Seq::<MultipartFile>::empty());
        }
        r
    }

    pub fn add_text(&mut self, name: &str, value: String)
        ensures
            final(self).spec_boundary() == old(self).spec_boundary(),
            final(self).spec_files() == old(self).spec_files(),
            final(self).spec_texts().len() == old(self).spec_texts().len() + 1,
            forall|i: int|
                0 <= i < old(self).spec_texts().len() ==> final(self).spec_texts()[i] == old(
                    self,
                ).spec_texts()[i],
            final(self).spec_texts().last().0@ == name@,
            final(self).spec_texts().last().1 == value,
    {
        self.text_fields.push((name.to_owned(), value));
    }

    pub fn add_file(&mut self, file: MultipartFile)
        ensures
            final(self).spec_boundary() == old(self).spec_boundary(),
            final(self).spec_texts() == old(self).spec_texts(),
            final(self).spec_files() == old(self).spec_files().push(file),
    {
        self.files.push(file);
    }
}

impl RequestBody for Multipart {
    open spec fn spec_content_type(&self) -> Option<Seq<char>> {
        Some("multipart/form-data; boundary="@ + self.spec_boundary())
    }

    open spec fn spec_body_bytes(&self) -> Option<Seq<u8>> {
        Some(spec_multipart_body(self.spec_boundary(), self.spec_texts(), self.spec_files()))
    }

    fn content_type(&self) -> (r: Option<String>) {
        let mut s = String::from_str("multipart/form-data; boundary=");
        s.append(self.boundary.as_str());
        Some(s)
    }

    fn into_body_bytes(self) -> (r: Option<Vec<u8>>) {
        let mut data: Vec<u8> = Vec::new();
        let Multipart { boundary, text_fields, files } = self;
        proof {
            assert(data@ =~= spec_text_parts(boundary@, text_fields@.take(0)));
        }
        let mut i: usize = 0;
        while i < text_fields.len()
            invariant
                i <= text_fields.len(),
                data@ == spec_text_parts(boundary@, text_fields@.take(i as int)),
            decreases text_fields.len() - i,
        {
            push_text_part(&mut data, boundary.as_str(), text_fields[i].0.as_str(), text_fields[i].1.as_str());
            proof {
                assert(text_fields@.take(i + 1).drop_last() =~= text_fields@.take(i as int));
                assert(text_fields@.take(i + 1).last() == text_fields@[i as int]);
                assert(data@ =~= spec_text_parts(boundary@, text_fields@.take(i + 1)));
            }
            i = i + 1;
        }
        proof {
            assert(text_fields@.take(text_fields@.len() as int) =~= text_fields@);
        }
        let mut j: usize = 0;
        while j < files.len()
            invariant
                j <= files.len(),
                data@ == spec_text_parts(boundary@, text_fields@) + spec_file_parts(
                    boundary@,
                    files@.take(j as int),
                ),
            decreases files.len() - j,
        {
            push_file_part(&mut data, boundary.as_str(), &files[j]);
            proof {
                assert(files@.take(j + 1).drop_last() =~= files@.take(j as int));
                assert(files@.take(j + 1).last() == files@[j as int]);
                assert(data@ =~= spec_text_parts(boundary@, text_fields@) + spec_file_parts(
                    boundary@,
                    files@.take(j + 1),
                ));
            }
            j = j + 1;
        }
        proof {
            assert(files@.take(files@.len() as int) =~= files@);
        }
        push_str_bytes(&mut data, "--");
        push_str_bytes(&mut data, boundary.as_str());
        push_str_bytes(&mut data, "--\r\n");
        proof {
            assert(data@ =~= spec_multipart_body(boundary@, text_fields@, files@));
        }
        Some(data)
    }
}

} // verus!
