//! Searching and cutting byte strings: header values, paths, file names.

use vstd::prelude::*;

verus! {

pub const SLASH: u8 = 0x2f;

pub const DOT: u8 = 0x2e;

pub const SEMICOLON: u8 = 0x3b;

pub const QUOTE: u8 = 0x22;

/// Whether `needle` stands in `hay` at index `at`.
pub open spec fn matches_at(hay: Seq<u8>, needle: Seq<u8>, at: int) -> bool {
    &&& 0 <= at
    &&& at + needle.len() <= hay.len()
    &&& forall|k: int| 0 <= k < needle.len() ==> #[trigger] hay[at + k] == needle[k]
}

/// The index of the first occurrence of `needle` in `hay` at or after
/// `from`, if there is one.
pub open spec fn first_match(hay: Seq<u8>, needle: Seq<u8>, from: int) -> Option<int>
    decreases hay.len() - from,
{
    if from < 0 || from + needle.len() > hay.len() {
        None
    } else if matches_at(hay, needle, from) {
        Some(from)
    } else {
        first_match(hay, needle, from + 1)
    }
}

/// Whether `hay` begins with `prefix`.
pub open spec fn has_prefix(hay: Seq<u8>, prefix: Seq<u8>) -> bool {
    matches_at(hay, prefix, 0)
}

/// The index of the last `byte` among the first `n` bytes, or -1.
pub open spec fn last_index_of(s: Seq<u8>, byte: u8, n: int) -> int
    decreases n,
{
    if n <= 0 {
        -1
    } else if s[n - 1] == byte {
        n - 1
    } else {
        last_index_of(s, byte, n - 1)
    }
}

/// The index of the first `byte` at or after `from`, or the length.
pub open spec fn first_index_of(s: Seq<u8>, byte: u8, from: int) -> int
    decreases s.len() - from,
{
    if from < 0 || from >= s.len() {
        s.len() as int
    } else if s[from] == byte {
        from
    } else {
        first_index_of(s, byte, from + 1)
    }
}

/// What follows the last slash: the whole where there is no slash.
pub open spec fn file_name(path: Seq<u8>) -> Seq<u8> {
    path.subrange(last_index_of(path, SLASH, path.len() as int) + 1, path.len() as int)
}

/// The index of the dot that begins the extension of a file name: the last
/// dot, unless it is the first byte or there is none.
pub open spec fn extension_dot(name: Seq<u8>) -> Option<int> {
    let dot = last_index_of(name, DOT, name.len() as int);
    if dot <= 0 {
        None
    } else {
        Some(dot)
    }
}

/// The length of a path without the slashes at its end.
pub open spec fn trimmed_len(path: Seq<u8>, n: int) -> int
    decreases n,
{
    if n > 0 && path[n - 1] == SLASH {
        trimmed_len(path, n - 1)
    } else {
        n
    }
}

/// The last component of a path that is not empty: what stands between
/// the slashes at its end and the slash before them.
pub open spec fn last_component(path: Seq<u8>) -> Seq<u8> {
    file_name(path.subrange(0, trimmed_len(path, path.len() as int)))
}

/// What follows the extension dot of the last component of a path.
pub open spec fn extension(path: Seq<u8>) -> Option<Seq<u8>> {
    let name = last_component(path);
    match extension_dot(name) {
        Some(dot) => Some(name.subrange(dot + 1, name.len() as int)),
        None => None,
    }
}

/// The file name with its extension replaced, or with the extension added
/// where it had none.
pub open spec fn with_extension(name: Seq<u8>, new_extension: Seq<u8>) -> Seq<u8> {
    let stem = match extension_dot(name) {
        Some(dot) => name.subrange(0, dot),
        None => name,
    };
    stem + seq![DOT] + new_extension
}

pub proof fn lemma_last_index_bounds(s: Seq<u8>, byte: u8, n: int)
    requires
        0 <= n <= s.len(),
    ensures
        -1 <= last_index_of(s, byte, n) < n,
    decreases n,
{
    if n > 0 && s[n - 1] != byte {
        lemma_last_index_bounds(s, byte, n - 1);
    }
}

pub fn occurs_at(hay: &[u8], needle: &[u8], at: usize) -> (r: bool)
    ensures
        r == matches_at(hay@, needle@, at as int),
{
    if at > hay.len() || needle.len() > hay.len() - at {
        return false;
    }
    let mut k: usize = 0;
    while k < needle.len()
        invariant
            k <= needle@.len(),
            at + needle@.len() <= hay@.len() <= usize::MAX,
            forall|j: int| 0 <= j < k ==> #[trigger] hay@[at + j] == needle@[j],
        decreases needle@.len() - k,
    {
        if hay[at + k] != needle[k] {
            return false;
        }
        k = k + 1;
    }
    true
}

/// Finds the first occurrence of `needle` in `hay`.
pub fn find(hay: &[u8], needle: &[u8]) -> (r: Option<usize>)
    ensures
        match r {
            Some(i) => first_match(hay@, needle@, 0) == Some(i as int),
            None => first_match(hay@, needle@, 0) is None,
        },
{
    let mut from: usize = 0;
    while from <= hay.len() && needle.len() <= hay.len() - from
        invariant
            from <= hay@.len() + 1,
            first_match(hay@, needle@, 0) == first_match(hay@, needle@, from as int),
        decreases hay@.len() + 1 - from,
    {
        if occurs_at(hay, needle, from) {
            return Some(from);
        }
        from = from + 1;
    }
    None
}

pub fn starts_with(hay: &[u8], prefix: &[u8]) -> (r: bool)
    ensures
        r == has_prefix(hay@, prefix@),
{
    occurs_at(hay, prefix, 0)
}

/// The index of the last `byte`, if there is one.
pub fn rfind_byte(s: &[u8], byte: u8) -> (r: Option<usize>)
    ensures
        match r {
            Some(i) => last_index_of(s@, byte, s@.len() as int) == i,
            None => last_index_of(s@, byte, s@.len() as int) == -1,
        },
{
    let mut n: usize = s.len();
    while n > 0
        invariant
            n <= s@.len(),
            last_index_of(s@, byte, s@.len() as int) == last_index_of(s@, byte, n as int),
        decreases n,
    {
        if s[n - 1] == byte {
            return Some(n - 1);
        }
        n = n - 1;
    }
    None
}

/// The index of the first `byte` at or after `from`, or the length.
pub fn find_byte(s: &[u8], byte: u8, from: usize) -> (r: usize)
    requires
        from <= s@.len(),
    ensures
        r == first_index_of(s@, byte, from as int),
        from <= r <= s@.len(),
{
    let mut i: usize = from;
    while i < s.len()
        invariant
            from <= i <= s@.len(),
            first_index_of(s@, byte, from as int) == first_index_of(s@, byte, i as int),
        decreases s@.len() - i,
    {
        if s[i] == byte {
            return i;
        }
        i = i + 1;
    }
    i
}

/// Copies the bytes from `from` up to `to`.
pub fn copy_range(s: &[u8], from: usize, to: usize) -> (r: Vec<u8>)
    requires
        from <= to <= s@.len(),
    ensures
        r@ == s@.subrange(from as int, to as int),
{
    let mut out: Vec<u8> = Vec::new();
    let mut i: usize = from;
    while i < to
        invariant
            from <= i <= to <= s@.len(),
            out@ == s@.subrange(from as int, i as int),
        decreases to - i,
    {
        out.push(s[i]);
        assert(out@ =~= s@.subrange(from as int, i + 1));
        i = i + 1;
    }
    assert(out@ =~= s@.subrange(from as int, to as int));
    out
}

/// The range of the file name within a path.
pub fn file_name_start(path: &[u8]) -> (start: usize)
    ensures
        start <= path@.len(),
        path@.subrange(start as int, path@.len() as int) == file_name(path@),
{
    proof {
        lemma_last_index_bounds(path@, SLASH, path@.len() as int);
    }
    let len = path.len();
    match rfind_byte(path, SLASH) {
        Some(i) => {
            assert(i < len);
            i + 1
        },
        None => 0,
    }
}

/// The file name of a path.
pub fn file_name_of(path: &[u8]) -> (r: Vec<u8>)
    ensures
        r@ == file_name(path@),
{
    let start = file_name_start(path);
    copy_range(path, start, path.len())
}

/// The path without the slashes at its end.
pub fn trim_slashes(path: &[u8]) -> (r: Vec<u8>)
    ensures
        r@ == path@.subrange(0, trimmed_len(path@, path@.len() as int)),
{
    let mut n: usize = path.len();
    while n > 0 && path[n - 1] == SLASH
        invariant
            n <= path@.len(),
            trimmed_len(path@, path@.len() as int) == trimmed_len(path@, n as int),
        decreases n,
    {
        n = n - 1;
    }
    copy_range(path, 0, n)
}

/// The last component of a path that is not empty.
pub fn last_component_of(path: &[u8]) -> (r: Vec<u8>)
    ensures
        r@ == last_component(path@),
{
    let trimmed = trim_slashes(path);
    file_name_of(trimmed.as_slice())
}

/// The extension of the last component of a path.
pub fn extension_of(path: &[u8]) -> (r: Option<Vec<u8>>)
    ensures
        match r {
            Some(e) => extension(path@) == Some(e@),
            None => extension(path@) is None,
        },
{
    let name = last_component_of(path);
    proof {
        lemma_last_index_bounds(name@, DOT, name@.len() as int);
    }
    let len = name.len();
    match rfind_byte(name.as_slice(), DOT) {
        Some(dot) => if dot == 0 {
            None
        } else {
            assert(dot < len);
            Some(copy_range(name.as_slice(), dot + 1, len))
        },
        None => None,
    }
}

/// Replaces the extension of a file name, or adds one.
pub fn replace_extension(name: &[u8], new_extension: &[u8]) -> (r: Vec<u8>)
    ensures
        r@ == with_extension(name@, new_extension@),
{
    proof {
        lemma_last_index_bounds(name@, DOT, name@.len() as int);
    }
    let stem_end = match rfind_byte(name, DOT) {
        Some(dot) => if dot == 0 {
            name.len()
        } else {
            dot
        },
        None => name.len(),
    };
    let mut out = copy_range(name, 0, stem_end);
    assert(name@.subrange(0, name@.len() as int) =~= name@);
    out.push(DOT);
    let ghost head = out@;
    let mut i: usize = 0;
    while i < new_extension.len()
        invariant
            i <= new_extension@.len(),
            out@ == head + new_extension@.subrange(0, i as int),
        decreases new_extension@.len() - i,
    {
        out.push(new_extension[i]);
        assert(out@ =~= head + new_extension@.subrange(0, i + 1));
        i = i + 1;
    }
    assert(new_extension@.subrange(0, new_extension@.len() as int) =~= new_extension@);
    assert(head =~= name@.subrange(0, stem_end as int) + seq![DOT]);
    out
}

/// The bytes `filename=`, which begin the file name parameter of a
/// content disposition.
pub open spec fn filename_key() -> Seq<u8> {
    seq![0x66u8, 0x69u8, 0x6cu8, 0x65u8, 0x6eu8, 0x61u8, 0x6du8, 0x65u8, 0x3du8]
}

/// The value that begins a parameter's text: what stands between the
/// quotes where it opens with one, else what precedes the next semicolon.
pub open spec fn parameter_value(rest: Seq<u8>) -> Seq<u8> {
    if rest.len() > 0 && rest[0] == QUOTE {
        rest.subrange(1, first_index_of(rest, QUOTE, 1))
    } else {
        rest.subrange(0, first_index_of(rest, SEMICOLON, 0))
    }
}

/// The file name that a content disposition gives: the value of its first
/// `filename=` parameter, unless that is empty.
pub open spec fn disposition_filename(header: Seq<u8>) -> Option<Seq<u8>> {
    match first_match(header, filename_key(), 0) {
        Some(at) => {
            let value = parameter_value(header.subrange(at + 9, header.len() as int));
            if value.len() == 0 {
                None
            } else {
                Some(value)
            }
        },
        None => None,
    }
}

pub proof fn lemma_first_match_bounds(hay: Seq<u8>, needle: Seq<u8>, from: int)
    requires
        0 <= from,
    ensures
        first_match(hay, needle, from) matches Some(at) ==> from <= at && at + needle.len()
            <= hay.len(),
    decreases hay.len() - from,
{
    if from + needle.len() <= hay.len() && !matches_at(hay, needle, from) {
        lemma_first_match_bounds(hay, needle, from + 1);
    }
}

/// Reads the value that begins a parameter's text.
pub fn read_parameter_value(rest: &[u8]) -> (r: Vec<u8>)
    ensures
        r@ == parameter_value(rest@),
{
    if rest.len() > 0 && rest[0] == QUOTE {
        let end = find_byte(rest, QUOTE, 1);
        copy_range(rest, 1, end)
    } else {
        let end = find_byte(rest, SEMICOLON, 0);
        copy_range(rest, 0, end)
    }
}

/// Reads the file name out of a content disposition.
pub fn read_disposition_filename(header: &[u8]) -> (r: Option<Vec<u8>>)
    ensures
        match r {
            Some(name) => disposition_filename(header@) == Some(name@),
            None => disposition_filename(header@) is None,
        },
{
    let key: Vec<u8> = vec![0x66u8, 0x69u8, 0x6cu8, 0x65u8, 0x6eu8, 0x61u8, 0x6du8, 0x65u8, 0x3du8];
    assert(key@ =~= filename_key());
    proof {
        lemma_first_match_bounds(header@, filename_key(), 0);
    }
    let len = header.len();
    match find(header, key.as_slice()) {
        Some(at) => {
            assert(at + 9 <= len);
            let rest = copy_range(header, at + 9, len);
            let value = read_parameter_value(rest.as_slice());
            if value.len() == 0 {
                None
            } else {
                Some(value)
            }
        },
        None => None,
    }
}

} // verus!
