use vstd::prelude::*;
use vstd::string::StringSliceAdditionalSpecFns;
use vstd::utf8::{decode_utf8, encode_utf8, encode_utf8_decode_utf8, encode_utf8_valid_utf8, valid_utf8};

use crate::errors::IrisError;
use crate::escape::{escape, lemma_scan_escape, push_escaped, scan, unescape_until_quote};
use crate::json::{bytes_equal, decimal, push_all, push_byte, push_decimal, quoted};
use crate::message::{decimal_at, parse_decimal_at};
use crate::words::{push_word, word, Word};

verus! {

/// Whether an entry of a transfer is a directory or a regular file.
#[derive(Clone, Copy, Debug, PartialEq, Eq, Structural)]
pub enum FileType {
    Directory,
    File,
}

/// What the receiver learns of an entry before its contents: where it goes (relative to the
/// receiver's working directory), what it is, and its size in bytes (0 for a directory).
#[derive(Debug)]
pub struct FileMetadata {
    pub dest_filename: String,
    pub file_type: FileType,
    pub size: u64,
}

impl FileMetadata {
    pub fn new(filename: String, file_type: FileType, file_size: u64) -> (r: Self)
        ensures
            r.dest_filename@ == filename@,
            r.file_type == file_type,
            r.size == file_size,
    {
        FileMetadata { dest_filename: filename, file_type, size: file_size }
    }

    pub fn get_filename(&self) -> (r: &String)
        ensures
            r@ == self.dest_filename@,
    {
        &self.dest_filename
    }

    pub fn get_file_type(&self) -> (r: FileType)
        ensures
            r == self.file_type,
    {
        self.file_type
    }

    pub fn get_size(&self) -> (r: u64)
        ensures
            r == self.size,
    {
        self.size
    }

    /// The UTF-8 bytes of the destination path.
    pub open spec fn name_bytes(&self) -> Seq<u8> {
        encode_utf8(self.dest_filename@)
    }
}

pub open spec fn type_word(t: FileType) -> Word {
    match t {
        FileType::Directory => Word::DirectoryKind,
        FileType::File => Word::FileKind,
    }
}

/// `{"dest_filename":"`
pub open spec fn metadata_head() -> Seq<u8> {
    seq![123u8] + quoted(word(Word::DestFilenameField)) + seq![58u8, 34u8]
}

/// `","file_type":"<type>","size":`
pub open spec fn metadata_middle(t: FileType) -> Seq<u8> {
    seq![34u8, 44u8] + quoted(word(Word::FileTypeField)) + seq![58u8] + quoted(word(type_word(t)))
        + seq![44u8] + quoted(word(Word::SizeField)) + seq![58u8]
}

/// The compact JSON of an entry's metadata, with the path bytes `name`:
/// `{"dest_filename":"<name>","file_type":"<type>","size":<size>}`.
#[verifier::opaque]
pub open spec fn metadata_json(name: Seq<u8>, t: FileType, size: u64) -> Seq<u8> {
    metadata_head() + escape(name) + metadata_middle(t) + decimal(size as nat) + seq![125u8]
}

/// A `..` component starts at `i`.
pub open spec fn parent_component_at(b: Seq<u8>, i: int) -> bool {
    &&& 0 <= i
    &&& i + 2 <= b.len()
    &&& b[i] == 46 && b[i + 1] == 46
    &&& (i == 0 || b[i - 1] == 47)
    &&& (i + 2 == b.len() || b[i + 2] == 47)
}

/// A destination stays below the receiver's working directory: it is not empty, not
/// absolute, and has no `..` component.
pub open spec fn is_relative_below(b: Seq<u8>) -> bool {
    &&& b.len() > 0
    &&& b[0] != 47
    &&& forall|i: int| !parent_component_at(b, i)
}

/// Whether a destination path stays below the receiver's working directory.
pub fn is_safe_destination(path: &String) -> (r: bool)
    ensures
        r == is_relative_below(encode_utf8(path@)),
{
    let s = path.as_str();
    let b = s.as_bytes();
    assert(b@ == encode_utf8(path@));
    if b.len() == 0 || b[0] == 47 {
        assert(!is_relative_below(b@));
        return false;
    }
    let mut i: usize = 0;
    while i < b.len() - 1
        invariant
            0 <= i < b@.len(),
            b@ == encode_utf8(path@),
            forall|k: int| 0 <= k < i ==> !parent_component_at(b@, k),
        decreases b@.len() - i,
    {
        if b[i] == 46 && b[i + 1] == 46 && (i == 0 || b[i - 1] == 47) && (i + 2 == b.len() || b[i
            + 2] == 47) {
            assert(parent_component_at(b@, i as int));
            return false;
        }
        i = i + 1;
    }
    proof {
        assert forall|k: int| !parent_component_at(b@, k) by {
            if k >= i {
                assert(k + 2 > b@.len());
            }
        }
    }
    true
}

/// Relies on std's `String::from_utf8`: it accepts exactly the valid UTF-8 byte strings, and
/// the string holds the characters they encode.
#[verifier::external_body]
pub(crate) fn string_from_utf8(bytes: Vec<u8>) -> (r: Option<String>)
    ensures
        r is Some <==> valid_utf8(bytes@),
        r matches Some(s) ==> s@ == decode_utf8(bytes@),
{
    String::from_utf8(bytes).ok()
}

/// Encodes an entry's metadata as compact JSON.
pub fn encode_metadata(m: &FileMetadata) -> (r: Vec<u8>)
    ensures
        r@ == metadata_json(m.name_bytes(), m.file_type, m.size),
{
    let mut out: Vec<u8> = Vec::new();
    push_byte(&mut out, 123);
    push_byte(&mut out, 34);
    push_word(&mut out, Word::DestFilenameField);
    push_byte(&mut out, 34);
    push_byte(&mut out, 58);
    push_byte(&mut out, 34);
    let name = m.dest_filename.as_str().as_bytes();
    push_escaped(&mut out, name);
    push_byte(&mut out, 34);
    push_byte(&mut out, 44);
    push_byte(&mut out, 34);
    push_word(&mut out, Word::FileTypeField);
    push_byte(&mut out, 34);
    push_byte(&mut out, 58);
    push_byte(&mut out, 34);
    match m.file_type {
        FileType::Directory => push_word(&mut out, Word::DirectoryKind),
        FileType::File => push_word(&mut out, Word::FileKind),
    }
    push_byte(&mut out, 34);
    push_byte(&mut out, 44);
    push_byte(&mut out, 34);
    push_word(&mut out, Word::SizeField);
    push_byte(&mut out, 34);
    push_byte(&mut out, 58);
    push_decimal(&mut out, m.size);
    push_byte(&mut out, 125);
    reveal(metadata_json);
    assert(out@ =~= metadata_json(m.name_bytes(), m.file_type, m.size));
    out
}

proof fn lemma_metadata_shape(name: Seq<u8>, t: FileType, size: u64)
    ensures
        ({
            let b = metadata_json(name, t, size);
            let e: int = 18 + escape(name).len() as int;
            let ds: int = e + metadata_middle(t).len() as int;
            &&& b.len() > e + 15
            &&& b.subrange(18, e) == escape(name)
            &&& b[e] == 34
            &&& b[e + 15] == word(type_word(t))[0]
            &&& metadata_middle(t).len() == if t == FileType::File { 28int } else { 33int }
            &&& decimal_at(b, ds, size as nat, ds + decimal(size as nat).len() as int)
        }),
{
    reveal(metadata_json);
    let b = metadata_json(name, t, size);
    let h = metadata_head();
    let x = escape(name);
    let mid = metadata_middle(t);
    let d = decimal(size as nat);
    let e: int = 18 + x.len() as int;
    let ds: int = e + mid.len() as int;
    crate::json::lemma_decimal_digits(size as nat);
    assert(b == (((h + x) + mid) + d) + seq![125u8]);
    assert(b.subrange(18, e) =~= x);
    assert(b[e] == mid[0]);
    assert(b[e + 15] == mid[15]);
    assert(b.subrange(ds, ds + d.len() as int) =~= d);
    assert(b[ds + d.len() as int] == 125);
}

/// Decodes an entry's metadata: the result is `Ok` exactly when `b` is the encoding of some
/// metadata, and then holds that metadata.
#[verifier::rlimit(40)]
pub fn decode_metadata(b: &[u8]) -> (r: Result<FileMetadata, IrisError>)
    ensures
        r matches Ok(m) ==> metadata_json(m.name_bytes(), m.file_type, m.size) == b@,
        forall|c: Seq<char>, t: FileType, size: u64|
            #![trigger metadata_json(encode_utf8(c), t, size)]
            metadata_json(encode_utf8(c), t, size) == b@ ==> (r matches Ok(m) && m.dest_filename@
                == c && m.file_type == t && m.size == size),
        r is Err ==> r == Err::<FileMetadata, IrisError>(IrisError::DeserializationError),
{
    proof {
        assert forall|c: Seq<char>, t: FileType, size: u64|
            #![trigger metadata_json(encode_utf8(c), t, size)]
            metadata_json(encode_utf8(c), t, size) == b@ implies scan(b@, 18) == Some(
                (encode_utf8(c), 18 + escape(encode_utf8(c)).len() as int),
            ) && b@.len() > 18 + escape(encode_utf8(c)).len() + 15 && b@[18
                + escape(encode_utf8(c)).len() as int + 15] == word(type_word(t))[0] && b@.len()
                >= 18 + escape(encode_utf8(c)).len() + metadata_middle(t).len() && metadata_middle(
                t,
            ).len() == (if t == FileType::File {
                28int
            } else {
                33int
            }) by {
            lemma_metadata_shape(encode_utf8(c), t, size);
            lemma_scan_escape(encode_utf8(c), b@, 18, 18 + escape(encode_utf8(c)).len() as int);
        }
    }
    if b.len() < 19 {
        return Err(IrisError::DeserializationError);
    }
    let (name, e) = match unescape_until_quote(b, 18) {
        Some(found) => found,
        None => {
            return Err(IrisError::DeserializationError);
        },
    };
    if e >= b.len() || b.len() - e <= 15 {
        return Err(IrisError::DeserializationError);
    }
    let (file_type, middle_len) = if b[e + 15] == 70 {
        (FileType::File, 28usize)
    } else if b[e + 15] == 68 {
        (FileType::Directory, 33usize)
    } else {
        return Err(IrisError::DeserializationError);
    };
    if b.len() - e < middle_len {
        return Err(IrisError::DeserializationError);
    }
    let parsed = parse_decimal_at(b, e + middle_len);
    proof {
        assert forall|c: Seq<char>, t: FileType, sz: u64|
            #![trigger metadata_json(encode_utf8(c), t, sz)]
            metadata_json(encode_utf8(c), t, sz) == b@ implies name@ == encode_utf8(c) && file_type
                == t && parsed == Some((sz, (e + middle_len + decimal(sz as nat).len()) as usize)) by {
            lemma_metadata_shape(encode_utf8(c), t, sz);
            lemma_scan_escape(encode_utf8(c), b@, 18, 18 + escape(encode_utf8(c)).len() as int);
            let ds: int = e + middle_len;
            assert(decimal_at(b@, ds, sz as nat, ds + decimal(sz as nat).len() as int));
        }
        assert forall|c: Seq<char>, t: FileType, sz: u64|
            #![trigger metadata_json(encode_utf8(c), t, sz)]
            metadata_json(encode_utf8(c), t, sz) == b@ implies valid_utf8(name@) by {
            encode_utf8_valid_utf8(c);
        }
    }
    let size = match parsed {
        Some((v, _)) => v,
        None => {
            return Err(IrisError::DeserializationError);
        },
    };
    let ghost name_bytes = name@;
    let filename = match string_from_utf8(name) {
        Some(s) => s,
        None => {
            return Err(IrisError::DeserializationError);
        },
    };
    proof {
        assert forall|c: Seq<char>, t: FileType, sz: u64|
            #![trigger metadata_json(encode_utf8(c), t, sz)]
            metadata_json(encode_utf8(c), t, sz) == b@ implies filename@ == c && file_type == t
                && size == sz by {
            lemma_metadata_shape(encode_utf8(c), t, sz);
            encode_utf8_valid_utf8(c);
            encode_utf8_decode_utf8(c);
        }
    }
    let m = FileMetadata::new(filename, file_type, size);
    let encoded = encode_metadata(&m);
    if bytes_equal(encoded.as_slice(), b) {
        Ok(m)
    } else {
        Err(IrisError::DeserializationError)
    }
}

} // verus!

verus! {

proof fn lemma_metadata_scan(n: Seq<u8>, t: FileType, size: u64)
    ensures
        scan(metadata_json(n, t, size), 18) == Some((n, 18 + escape(n).len() as int)),
{
    lemma_metadata_shape(n, t, size);
    lemma_scan_escape(n, metadata_json(n, t, size), 18, 18 + escape(n).len() as int);
}

proof fn lemma_metadata_tail(n: Seq<u8>, t: FileType, size: u64)
    ensures
        ({
            let b = metadata_json(n, t, size);
            let e: int = 18 + escape(n).len() as int;
            let ds: int = e + metadata_middle(t).len() as int;
            &&& b.len() > e + 15
            &&& b[e + 15] == word(type_word(t))[0]
            &&& decimal_at(b, ds, size as nat, ds + decimal(size as nat).len() as int)
        }),
{
    lemma_metadata_shape(n, t, size);
}

/// The metadata encoding is one to one: equal encodings come from equal path, type and size.
pub proof fn metadata_encoding_is_injective(
    c1: Seq<char>,
    t1: FileType,
    s1: u64,
    c2: Seq<char>,
    t2: FileType,
    s2: u64,
)
    requires
        metadata_json(encode_utf8(c1), t1, s1) == metadata_json(encode_utf8(c2), t2, s2),
    ensures
        c1 == c2,
        t1 == t2,
        s1 == s2,
{
    let n1 = encode_utf8(c1);
    let n2 = encode_utf8(c2);
    let b = metadata_json(n1, t1, s1);
    lemma_metadata_scan(n1, t1, s1);
    lemma_metadata_scan(n2, t2, s2);
    assert(scan(b, 18) == Some((n2, 18 + escape(n2).len() as int)));
    assert(n1 == n2);
    encode_utf8_decode_utf8(c1);
    encode_utf8_decode_utf8(c2);
    lemma_metadata_tail(n1, t1, s1);
    lemma_metadata_tail(n1, t2, s2);
    let e: int = 18 + escape(n1).len() as int;
    assert(word(type_word(t1))[0] == word(type_word(t2))[0]);
    assert(t1 == t2);
    let ds: int = e + metadata_middle(t1).len() as int;
    crate::message::lemma_decimal_at_unique(
        b,
        ds,
        s1 as nat,
        ds + decimal(s1 as nat).len() as int,
        s2 as nat,
        ds + decimal(s2 as nat).len() as int,
    );
}

/// What a metadata encoding decodes to is what was encoded.
pub proof fn metadata_parses_back(c: Seq<char>, t: FileType, size: u64)
    ensures
        parse_metadata(metadata_json(encode_utf8(c), t, size)) == Some((c, t, size)),
{
    let b = metadata_json(encode_utf8(c), t, size);
    assert(metadata_json(encode_utf8((c, t, size).0), (c, t, size).1, (c, t, size).2) == b);
    let x = choose|x: (Seq<char>, FileType, u64)| metadata_json(encode_utf8(x.0), x.1, x.2) == b;
    metadata_encoding_is_injective(x.0, x.1, x.2, c, t, size);
}

/// The path, type and size that `b` encodes as entry metadata, if any.
pub open spec fn parse_metadata(b: Seq<u8>) -> Option<(Seq<char>, FileType, u64)> {
    if exists|x: (Seq<char>, FileType, u64)| metadata_json(encode_utf8(x.0), x.1, x.2) == b {
        Some(choose|x: (Seq<char>, FileType, u64)| metadata_json(encode_utf8(x.0), x.1, x.2) == b)
    } else {
        None
    }
}

/// Decodes entry metadata; the result agrees with `parse_metadata`.
pub fn read_metadata(b: &[u8]) -> (r: Result<FileMetadata, IrisError>)
    ensures
        match parse_metadata(b@) {
            Some(x) => r matches Ok(m) && m.dest_filename@ == x.0 && m.file_type == x.1 && m.size
                == x.2,
            None => r == Err::<FileMetadata, IrisError>(IrisError::DeserializationError),
        },
{
    let r = decode_metadata(b);
    proof {
        if exists|x: (Seq<char>, FileType, u64)| metadata_json(encode_utf8(x.0), x.1, x.2) == b@ {
            let x = choose|x: (Seq<char>, FileType, u64)|
                metadata_json(encode_utf8(x.0), x.1, x.2) == b@;
            assert(metadata_json(encode_utf8(x.0), x.1, x.2) == b@);
        } else {
            if r is Ok {
                let m = r->Ok_0;
                let x = (m.dest_filename@, m.file_type, m.size);
                assert(metadata_json(encode_utf8(x.0), x.1, x.2) == b@);
            }
        }
    }
    r
}

} // verus!
