//! Input and output files: the name of a file decides how its contents are encoded.

use vstd::prelude::*;

verus! {

/// The file's name does not end in a supported extension.
#[derive(Clone, Copy, PartialEq, Eq, Debug, Structural)]
pub struct UnsupportedFormat;

/// A value that is to be written to a file as JSON.
#[derive(Clone, PartialEq, Debug)]
pub struct JsonFile<T> {
    /// The file to write.
    pub file_name: String,
    /// What to write to it.
    pub value: T,
}

/// What follows the last `c` in `s`: all of `s` if there is none.
pub open spec fn after_last(s: Seq<char>, c: char) -> Seq<char>
    decreases s.len(),
{
    if s.len() == 0 || s.last() == c {
        Seq::empty()
    } else {
        after_last(s.drop_last(), c).push(s.last())
    }
}

/// The name of the file that `path` leads to. Separators and single dots at the end are
/// passed over, and a path that ends in two dots names no file.
pub open spec fn file_name(path: Seq<char>) -> Option<Seq<char>>
    decreases path.len(),
{
    let segment = after_last(path, '/');
    if segment == Seq::<char>::empty() || segment == seq!['.'] {
        if segment.len() < path.len() {
            file_name(path.take(path.len() - segment.len() - 1))
        } else {
            None
        }
    } else if segment == seq!['.', '.'] {
        None
    } else {
        Some(segment)
    }
}

/// The extension in the name of the file that `path` leads to: what follows the last dot,
/// unless this dot is the first character of the name.
pub open spec fn extension(path: Seq<char>) -> Option<Seq<char>> {
    match file_name(path) {
        Some(name) => {
            let ending = after_last(name, '.');
            if ending.len() + 1 < name.len() {
                Some(ending)
            } else {
                None
            }
        },
        None => None,
    }
}

/// Paths that are taken apart in the same way on every platform: the slash is their only
/// separator, and they name neither a drive nor a network share.
pub open spec fn portable(path: Seq<char>) -> bool {
    &&& !path.contains('\\')
    &&& !path.contains(':')
    &&& !(path.len() >= 2 && path[0] == '/' && path[1] == '/')
}

/// Whether `c` separates components of a path, or a drive from them, on some platform.
pub open spec fn is_separator(c: char) -> bool {
    c == '/' || c == '\\' || c == ':'
}

/// What stands in front of the last dot of `path`.
pub open spec fn before_ending(path: Seq<char>) -> Seq<char> {
    path.take(path.len() - after_last(path, '.').len() - 1)
}

/// Paths whose extension is what follows their last dot, on every platform: neither this text
/// nor what stands directly in front of the dot is a separator or missing, and the path does
/// not begin like the name of a network share.
pub open spec fn has_plain_ending(path: Seq<char>) -> bool {
    let ending = after_last(path, '.');
    &&& 0 < ending.len()
    &&& ending.len() + 1 < path.len()
    &&& forall|i: int| 0 <= i < ending.len() ==> !is_separator(#[trigger] ending[i])
    &&& !is_separator(before_ending(path).last())
    &&& !(is_separator(path[0]) && is_separator(path[1]))
}

/// Whether `c` is a slash, or a backslash where these separate components too.
pub open spec fn is_slash(c: char, backslashes: bool) -> bool {
    c == '/' || (backslashes && c == '\\')
}

/// `path` without the slashes and single dots at its end, which lead nowhere else.
pub open spec fn trimmed(path: Seq<char>, backslashes: bool) -> Seq<char>
    decreases path.len(),
{
    if path.len() > 0 && is_slash(path.last(), backslashes) {
        trimmed(path.drop_last(), backslashes)
    } else if path.len() > 1 && path.last() == '.' && is_slash(
        path[path.len() - 2],
        backslashes,
    ) {
        trimmed(path.drop_last(), backslashes)
    } else {
        path
    }
}

/// Whether `rest` is made of slashes, each followed by a single dot at most.
pub open spec fn is_trailing(rest: Seq<char>, backslashes: bool) -> bool {
    forall|i: int|
        0 <= i < rest.len() ==> {
            ||| is_slash(#[trigger] rest[i], backslashes)
            ||| {
                &&& rest[i] == '.'
                &&& i > 0
                &&& is_slash(rest[i - 1], backslashes)
                &&& (i + 1 < rest.len() ==> is_slash(rest[i + 1], backslashes))
            }
        }
}

/// Whether `part` stands somewhere in `whole`.
pub open spec fn occurs_in(part: Seq<char>, whole: Seq<char>) -> bool {
    exists|at: int|
        0 <= at <= whole.len() - part.len() && #[trigger] whole.subrange(at, at + part.len())
            == part
}

/// Whether `path` is `front`, which ends in part of a file name, a dot, `ending`, and `rest`,
/// which leads nowhere else.
pub open spec fn is_split(
    path: Seq<char>,
    front: Seq<char>,
    ending: Seq<char>,
    rest: Seq<char>,
) -> bool {
    &&& path == front + seq!['.'] + ending + rest
    &&& front.len() > 0
    &&& front.last() != '/'
    &&& is_trailing(rest, true)
}

/// Whether `path` begins with two backslashes, after which some platforms take the slash for an
/// ordinary character.
pub open spec fn starts_verbatim(path: Seq<char>) -> bool {
    path.len() >= 2 && path[0] == '\\' && path[1] == '\\'
}

/// Whether some platform can take `res` for the extension of the file that `path` leads to. On
/// portable paths, and on those with a plain ending once they are trimmed, all platforms take
/// the same. Elsewhere it is at least what follows some dot and, but for paths that begin with
/// two backslashes, what ends the last name in the path.
pub open spec fn possible_extension(path: Seq<char>, res: Option<Seq<char>>) -> bool {
    &&& portable(path) ==> res == extension(path)
    &&& has_plain_ending(trimmed(path, false)) ==> res == Some(
        after_last(trimmed(path, false), '.'),
    )
    &&& res matches Some(ending) ==> {
        &&& !ending.contains('.')
        &&& occurs_in(seq!['.'] + ending, path)
        &&& !starts_verbatim(path) ==> {
            &&& !ending.contains('/')
            &&& exists|front: Seq<char>, rest: Seq<char>|
                #[trigger] is_split(path, front, ending, rest)
        }
    }
}

/// The contents of an extension, where there is one.
pub open spec fn seen(extension: Option<String>) -> Option<Seq<char>> {
    match extension {
        Some(ending) => Some(ending@),
        None => None,
    }
}

/// Whether `path` leads to a JSON file.
pub open spec fn is_json_path(path: Seq<char>) -> bool {
    extension(path) == Some("json"@)
}

/// Whether `extension` is what this platform, when asked, can take for that of the file that
/// `path` leads to.
pub closed spec fn is_found(path: Seq<char>, extension: Option<Seq<char>>) -> bool {
    exists|text: &str, res: Option<String>|
        {
            &&& text@ == path
            &&& seen(res) == extension
            &&& #[trigger] call_ensures(path_extension, (text,), res)
        }
}

/// What the answer `supported` to the question whether `path` can be read or written says: that
/// `json` is the extension that the platform takes for that of the file.
pub open spec fn format_verdict(path: Seq<char>, supported: bool) -> bool {
    exists|extension: Option<Seq<char>>|
        {
            &&& #[trigger] possible_extension(path, extension)
            &&& supported == (extension == Some("json"@))
        }
}

/// Whether `supported` is the answer of this platform, when asked, to the question whether
/// `path` can be read or written.
pub open spec fn platform_verdict(path: Seq<char>, supported: bool) -> bool {
    exists|extension: Option<Seq<char>>|
        #[trigger] is_found(path, extension) && supported == (extension == Some("json"@))
}

/// Paths of which all platforms say alike whether they lead to a JSON file.
pub open spec fn is_agreed(path: Seq<char>) -> bool {
    forall|one: Option<Seq<char>>, other: Option<Seq<char>>|
        #[trigger] possible_extension(path, one) && #[trigger] possible_extension(path, other)
            ==> ((one == Some("json"@)) == (other == Some("json"@)))
}

/// `std::path::Path::extension`: what follows the last dot in the name of the file, unless
/// this dot starts the name. How a path is taken apart depends on the platform; the contract
/// says of each path what the platforms have in common.
#[verifier::external_body]
fn path_extension(path: &str) -> (res: Option<String>)
    ensures
        possible_extension(path@, seen(res)),
{
    match std::path::Path::new(path).extension()?.to_str() {
        Some(ending) => Some(ending.to_string()),
        None => None,
    }
}

/// Whether `extension` is that of JSON files, the only supported format.
pub fn is_json(extension: &Option<String>) -> (res: bool)
    ensures
        res == (extension matches Some(ending) && ending@ == "json"@),
{
    match extension {
        Some(ending) => *ending == "json".to_owned(),
        None => false,
    }
}

/// Whether `res` is what comes of handing `contents` to `read_input` for a file with the given
/// extension.
pub open spec fn reads_as(
    extension: Option<Seq<char>>,
    contents: String,
    res: Result<String, UnsupportedFormat>,
) -> bool {
    &&& res is Ok <==> extension == Some("json"@)
    &&& res matches Ok(text) ==> text == contents
}

/// Whether `res` is what comes of handing `value` to `write_output` for the file `path` with the
/// given extension.
pub open spec fn writes_as<T>(
    path: Seq<char>,
    extension: Option<Seq<char>>,
    value: T,
    res: Result<JsonFile<T>, UnsupportedFormat>,
) -> bool {
    &&& res is Ok <==> extension == Some("json"@)
    &&& res matches Ok(file) ==> file.file_name@ == path && file.value == value
}

/// Whether `res` is what comes of handing `contents` to `read_input` for the file `path`.
pub open spec fn reads(
    path: Seq<char>,
    contents: String,
    res: Result<String, UnsupportedFormat>,
) -> bool {
    exists|extension: Option<Seq<char>>|
        #[trigger] possible_extension(path, extension) && reads_as(extension, contents, res)
}

/// Whether `res` is what comes of handing `value` to `write_output` for the file `path`.
pub open spec fn writes<T>(
    path: Seq<char>,
    value: T,
    res: Result<JsonFile<T>, UnsupportedFormat>,
) -> bool {
    exists|extension: Option<Seq<char>>|
        #[trigger] possible_extension(path, extension) && writes_as(path, extension, value, res)
}

/// Accepts what was read from a file for decoding as JSON, unless the file's name says
/// otherwise.
pub fn read_input(file_name: &str, contents: String) -> (res: Result<String, UnsupportedFormat>)
    ensures
        reads(file_name@, contents, res),
        platform_verdict(file_name@, res is Ok),
{
    let extension = path_extension(file_name);
    assert(is_found(file_name@, seen(extension)));
    if is_json(&extension) {
        Ok(contents)
    } else {
        Err(UnsupportedFormat)
    }
}

/// Accepts a value for writing to a file as JSON, unless the file's name says otherwise.
pub fn write_output<T>(file_name: &str, value: T) -> (res: Result<JsonFile<T>, UnsupportedFormat>)
    ensures
        writes(file_name@, value, res),
        platform_verdict(file_name@, res is Ok),
{
    let extension = path_extension(file_name);
    assert(is_found(file_name@, seen(extension)));
    if is_json(&extension) {
        Ok(JsonFile { file_name: file_name.to_owned(), value })
    } else {
        Err(UnsupportedFormat)
    }
}

/// Law: a file that can be written can be read again, as far as its name is concerned, also on
/// another platform if they agree about the name.
pub proof fn law_written_is_readable(path: Seq<char>, writable: bool, readable: bool)
    requires
        is_agreed(path),
        format_verdict(path, writable),
        format_verdict(path, readable),
    ensures
        writable == readable,
{
}

/// Law: reading undoes writing, for every path. If decoding gives back the value that was
/// encoded, the file holds the encoded value, and the platform finds the same extension in the
/// name when it is read as when it was written, then what was written is what is read.
pub proof fn law_reading_undoes_writing<T>(
    path: Seq<char>,
    extension: Option<Seq<char>>,
    value: T,
    encode: spec_fn(T) -> String,
    decode: spec_fn(String) -> Option<T>,
    written: Result<JsonFile<T>, UnsupportedFormat>,
    read: Result<String, UnsupportedFormat>,
)
    requires
        decode(encode(value)) == Some(value),
        writes_as(path, extension, value, written),
        written is Ok,
        reads_as(extension, encode(written->Ok_0.value), read),
    ensures
        written->Ok_0.file_name@ == path,
        read matches Ok(text) && decode(text) == Some(value),
{
}

/// Law: reading undoes writing, also where the file is read on another platform than it was
/// written on, if they agree about its name.
pub proof fn law_reading_undoes_writing_anywhere<T>(
    path: Seq<char>,
    value: T,
    encode: spec_fn(T) -> String,
    decode: spec_fn(String) -> Option<T>,
    written: Result<JsonFile<T>, UnsupportedFormat>,
    read: Result<String, UnsupportedFormat>,
)
    requires
        is_agreed(path),
        decode(encode(value)) == Some(value),
        writes(path, value, written),
        written is Ok,
        reads(written->Ok_0.file_name@, encode(written->Ok_0.value), read),
    ensures
        read matches Ok(text) && decode(text) == Some(value),
{
}

/// Text without `c` is all that follows its last `c`.
proof fn lemma_after_last_none(s: Seq<char>, c: char)
    requires
        !s.contains(c),
    ensures
        after_last(s, c) == s,
    decreases s.len(),
{
    if s.len() > 0 {
        assert(s.contains(s.last()));
        assert forall|x: char| s.drop_last().contains(x) implies s.contains(x) by {
            let i = choose|i: int| 0 <= i < s.drop_last().len() && s.drop_last()[i] == x;
            assert(s[i] == x);
        }
        lemma_after_last_none(s.drop_last(), c);
        assert(s.drop_last().push(s.last()) =~= s);
    } else {
        assert(s =~= Seq::<char>::empty());
    }
}

/// What follows the last `c` in a text that ends in `c` and then in `ending`.
proof fn lemma_after_last(front: Seq<char>, c: char, ending: Seq<char>)
    requires
        !ending.contains(c),
    ensures
        after_last(front.push(c) + ending, c) == ending,
    decreases ending.len(),
{
    let s = front.push(c) + ending;
    if ending.len() > 0 {
        assert(ending.contains(ending.last()));
        assert forall|x: char| ending.drop_last().contains(x) implies ending.contains(x) by {
            let i = choose|i: int| 0 <= i < ending.drop_last().len() && ending.drop_last()[i] == x;
            assert(ending[i] == x);
        }
        lemma_after_last(front, c, ending.drop_last());
        assert(s.drop_last() =~= front.push(c) + ending.drop_last());
        assert(ending.drop_last().push(ending.last()) =~= ending);
    } else {
        assert(ending =~= Seq::<char>::empty());
    }
}

/// Law: a file whose name is any non-empty stem followed by `.json` is a JSON file, in whatever
/// directory it stands.
pub proof fn law_json_files(directory: Seq<char>, stem: Seq<char>)
    requires
        stem.len() > 0,
        !stem.contains('/'),
    ensures
        is_json_path(stem + seq!['.'] + "json"@),
        is_json_path(directory + seq!['/'] + stem + seq!['.'] + "json"@),
{
    reveal_strlit("json");
    let json = "json"@;
    let name = stem + seq!['.'] + json;
    assert(json[0] == 'j');
    assert forall|i: int| 0 <= i < name.len() implies name[i] != '/' by {
        if i < stem.len() {
            assert(stem.contains(stem[i]));
        }
    }
    lemma_after_last_none(name, '/');
    lemma_after_last(stem, '.', json);
    assert(stem.push('.') + json =~= name);
    assert(name.len() >= 6);
    let path = directory + seq!['/'] + stem + seq!['.'] + json;
    assert(path =~= directory.push('/') + name);
    lemma_after_last(directory, '/', name);
}

/// What stands in front of all that follows the last `c`, if there is a `c`: this `c` itself,
/// after the rest.
proof fn lemma_before_last(s: Seq<char>, c: char)
    requires
        after_last(s, c).len() < s.len(),
    ensures
        s == s.take(s.len() - after_last(s, c).len() - 1).push(c) + after_last(s, c),
    decreases s.len(),
{
    let ending = after_last(s, c);
    let front = s.take(s.len() - ending.len() - 1);
    if s.last() == c {
        assert(front.push(c) + ending =~= s);
    } else {
        let shorter = s.drop_last();
        lemma_before_last(shorter, c);
        assert(shorter.take(shorter.len() - after_last(shorter, c).len() - 1) =~= front);
        assert(s =~= shorter.push(s.last()));
        assert(front.push(c) + ending =~= (front.push(c) + after_last(shorter, c)).push(s.last()));
    }
}

/// Law: among names without a separator, those of JSON files are exactly the non-empty stems
/// followed by `.json`.
pub proof fn law_json_names(name: Seq<char>)
    requires
        !name.contains('/'),
    ensures
        is_json_path(name) <==> exists|stem: Seq<char>|
            stem.len() > 0 && name == #[trigger] (stem + seq!['.'] + "json"@),
{
    reveal_strlit("json");
    if is_json_path(name) {
        lemma_after_last_none(name, '/');
        lemma_before_last(name, '.');
        let stem = name.take(name.len() - 5);
        assert(name =~= stem + seq!['.'] + "json"@);
    }
    if exists|stem: Seq<char>|
        stem.len() > 0 && name == #[trigger] (stem + seq!['.'] + "json"@) {
        let stem = choose|stem: Seq<char>|
            stem.len() > 0 && name == #[trigger] (stem + seq!['.'] + "json"@);
        assert forall|i: int| 0 <= i < stem.len() implies stem[i] != '/' by {
            assert(name[i] == stem[i]);
        }
        law_json_files(Seq::empty(), stem);
    }
}

/// What follows the last `c` holds no `c`.
proof fn lemma_after_last_free(s: Seq<char>, c: char)
    ensures
        !after_last(s, c).contains(c),
        after_last(s, c).len() <= s.len(),
    decreases s.len(),
{
    if s.len() > 0 && s.last() != c {
        lemma_after_last_free(s.drop_last(), c);
        let shorter = after_last(s.drop_last(), c);
        assert forall|i: int| 0 <= i < shorter.push(s.last()).len() implies shorter.push(
            s.last(),
        )[i] != c by {
            if i < shorter.len() {
                assert(shorter.contains(shorter[i]));
            }
        }
    }
}

/// The name that a path with a plain ending leads to.
proof fn lemma_plain_ending(path: Seq<char>)
    requires
        has_plain_ending(path),
    ensures
        extension(path) == Some(after_last(path, '.')),
{
    let ending = after_last(path, '.');
    let stem = before_ending(path);
    lemma_before_last(path, '.');
    lemma_after_last_free(path, '.');
    let tail = after_last(stem, '/');
    lemma_after_last_free(stem, '/');
    let name = tail.push('.') + ending;
    assert(tail.len() > 0);
    assert forall|i: int| 0 <= i < name.len() implies name[i] != '/' by {
        if i < tail.len() {
            assert(tail.contains(tail[i]));
        } else if i > tail.len() {
            assert(name[i] == ending[i - tail.len() - 1]);
        }
    }
    if tail.len() < stem.len() {
        lemma_before_last(stem, '/');
        let directory = stem.take(stem.len() - tail.len() - 1);
        assert(path =~= directory.push('/') + name);
        lemma_after_last(directory, '/', name);
    } else {
        lemma_whole(stem, '/');
        assert(path =~= name);
        lemma_after_last_none(name, '/');
    }
    lemma_after_last(tail, '.', ending);
    assert(ending[0] != '.') by {
        assert(ending.contains(ending[0]));
    }
    assert(name[tail.len() as int + 1] == ending[0]);
}

/// Text as long as what follows its last `c` is this text.
proof fn lemma_whole(s: Seq<char>, c: char)
    requires
        after_last(s, c).len() == s.len(),
    ensures
        after_last(s, c) == s,
    decreases s.len(),
{
    if s.len() > 0 {
        lemma_whole(s.drop_last(), c);
        assert(s.drop_last().push(s.last()) =~= s);
    } else {
        assert(s =~= after_last(s, c));
    }
}

/// What trimming leaves and takes away.
proof fn lemma_trimmed(path: Seq<char>, backslashes: bool) -> (rest: Seq<char>)
    ensures
        path == trimmed(path, backslashes) + rest,
        is_trailing(rest, backslashes),
        !(trimmed(path, backslashes).len() > 0 && is_slash(
            trimmed(path, backslashes).last(),
            backslashes,
        )),
    decreases path.len(),
{
    let kept = trimmed(path, backslashes);
    let ends_in_slash = path.len() > 0 && is_slash(path.last(), backslashes);
    let ends_in_dot = path.len() > 1 && path.last() == '.' && is_slash(
        path[path.len() - 2],
        backslashes,
    );
    if ends_in_slash || ends_in_dot {
        let earlier = lemma_trimmed(path.drop_last(), backslashes);
        let rest = earlier.push(path.last());
        assert(kept == trimmed(path.drop_last(), backslashes));
        assert(path =~= (kept + earlier).push(path.last()));
        assert(path =~= kept + rest);
        if ends_in_dot && !ends_in_slash {
            assert(path.drop_last().last() == path[path.len() - 2]);
            assert(earlier.len() > 0);
            assert(earlier.last() == path[path.len() - 2]);
        }
        assert forall|i: int| 0 <= i < rest.len() implies {
            ||| is_slash(#[trigger] rest[i], backslashes)
            ||| {
                &&& rest[i] == '.'
                &&& i > 0
                &&& is_slash(rest[i - 1], backslashes)
                &&& (i + 1 < rest.len() ==> is_slash(rest[i + 1], backslashes))
            }
        } by {
            if i < earlier.len() {
                assert(rest[i] == earlier[i]);
                if i > 0 {
                    assert(rest[i - 1] == earlier[i - 1]);
                }
                if i + 1 < earlier.len() {
                    assert(rest[i + 1] == earlier[i + 1]);
                }
            }
        }
        rest
    } else {
        assert(path =~= kept + Seq::empty());
        Seq::empty()
    }
}

/// What leads nowhere else is trimmed off.
proof fn lemma_trimmed_off(base: Seq<char>, rest: Seq<char>, backslashes: bool)
    requires
        base.len() > 0,
        !is_slash(base.last(), backslashes),
        base.last() != '.',
        is_trailing(rest, backslashes),
    ensures
        trimmed(base + rest, backslashes) == base,
    decreases rest.len(),
{
    if rest.len() == 0 {
        assert(base + rest =~= base);
    } else {
        let shorter = rest.drop_last();
        assert(rest[rest.len() - 1] == rest.last());
        assert forall|i: int| 0 <= i < shorter.len() implies {
            ||| is_slash(#[trigger] shorter[i], backslashes)
            ||| {
                &&& shorter[i] == '.'
                &&& i > 0
                &&& is_slash(shorter[i - 1], backslashes)
                &&& (i + 1 < shorter.len() ==> is_slash(shorter[i + 1], backslashes))
            }
        } by {
            assert(rest[i] == shorter[i]);
        }
        lemma_trimmed_off(base, shorter, backslashes);
        assert((base + rest).drop_last() =~= base + shorter);
        assert((base + rest).last() == rest.last());
    }
}

/// Trimming does not change where a path leads.
proof fn lemma_trimmed_name(path: Seq<char>)
    ensures
        file_name(path) == file_name(trimmed(path, false)),
    decreases path.len(),
{
    if path.len() > 0 && path.last() == '/' {
        lemma_trimmed_name(path.drop_last());
        assert(after_last(path, '/') == Seq::<char>::empty());
        assert(path.take(path.len() - 1) =~= path.drop_last());
    } else if path.len() > 1 && path.last() == '.' && path[path.len() - 2] == '/' {
        let directory = path.take(path.len() - 2);
        assert(path.drop_last().drop_last() =~= directory);
        assert(path.drop_last().last() == '/');
        lemma_trimmed_name(path.drop_last());
        assert(seq!['.'][0] == '.');
        assert(!seq!['.'].contains('/'));
        lemma_after_last(directory, '/', seq!['.']);
        assert(path =~= directory.push('/') + seq!['.']);
        assert(after_last(path.drop_last(), '/') == Seq::<char>::empty());
        assert(path.drop_last().take(path.len() - 2) =~= directory);
    }
}

/// Law: the extension of the file that a path leads to, with the slash as the only separator,
/// is one that some platform can find. So what is said of the platforms contradicts itself on no
/// path.
#[verifier::spinoff_prover]
#[verifier::rlimit(40)]
pub proof fn law_slash_reading_is_possible(path: Seq<char>)
    ensures
        possible_extension(path, extension(path)),
{
    let kept = trimmed(path, false);
    lemma_trimmed_name(path);
    if has_plain_ending(kept) {
        lemma_plain_ending(kept);
    }
    if let Some(ending) = extension(path) {
        let name = file_name(kept)->0;
        let rest = lemma_trimmed(path, false);
        lemma_trimmed_once(path, false);
        lemma_segment(kept);
        lemma_after_last_free(kept, '/');
        lemma_after_last_free(name, '.');
        lemma_before_last(name, '.');
        let stem = name.take(name.len() - ending.len() - 1);
        let directory = kept.take(kept.len() - name.len());
        lemma_ends_in_segment(kept, '/');
        assert(kept =~= directory + name);
        let front = directory + stem;
        assert(path =~= front + seq!['.'] + ending + rest);
        assert(front.last() == name[stem.len() - 1]);
        assert(name.contains(name[stem.len() - 1]));
        assert forall|i: int| 0 <= i < ending.len() implies ending[i] != '/' by {
            assert(name[stem.len() + 1 + i] == ending[i]);
            assert(name.contains(name[stem.len() + 1 + i]));
        }
        assert forall|i: int| 0 <= i < rest.len() implies {
            ||| is_slash(#[trigger] rest[i], true)
            ||| {
                &&& rest[i] == '.'
                &&& i > 0
                &&& is_slash(rest[i - 1], true)
                &&& (i + 1 < rest.len() ==> is_slash(rest[i + 1], true))
            }
        } by {}
        assert(is_split(path, front, ending, rest));
        let at = front.len() as int;
        let part = seq!['.'] + ending;
        assert(path.subrange(at, at + part.len()) =~= part);
    }
}

/// A path that is trimmed leads to its last segment, if anywhere.
proof fn lemma_segment(path: Seq<char>)
    requires
        path == trimmed(path, false),
        file_name(path) is Some,
    ensures
        file_name(path) == Some(after_last(path, '/')),
    decreases path.len(),
{
    let segment = after_last(path, '/');
    let _ = lemma_trimmed(path, false);
    if segment == Seq::<char>::empty() {
        if path.len() > 0 {
            assert(path.last() == '/');
        }
    } else if segment == seq!['.'] {
        lemma_after_last_free(path, '/');
        if segment.len() < path.len() {
            lemma_before_last(path, '/');
            assert(path.last() == '.');
            assert(path[path.len() - 2] == '/');
            lemma_trimmed_shorter(path.drop_last(), false);
            assert(trimmed(path, false).len() < path.len());
        }
    }
}

/// Trimming a trimmed path changes nothing.
proof fn lemma_trimmed_once(path: Seq<char>, backslashes: bool)
    ensures
        trimmed(trimmed(path, backslashes), backslashes) == trimmed(path, backslashes),
    decreases path.len(),
{
    if path.len() > 0 {
        lemma_trimmed_once(path.drop_last(), backslashes);
    }
}

/// Trimming makes no path longer.
proof fn lemma_trimmed_shorter(path: Seq<char>, backslashes: bool)
    ensures
        trimmed(path, backslashes).len() <= path.len(),
    decreases path.len(),
{
    if path.len() > 0 {
        lemma_trimmed_shorter(path.drop_last(), backslashes);
    }
}

/// Text ends in what follows its last `c`.
proof fn lemma_ends_in_segment(s: Seq<char>, c: char)
    ensures
        after_last(s, c).len() <= s.len(),
        s.skip(s.len() - after_last(s, c).len()) == after_last(s, c),
{
    lemma_after_last_free(s, c);
    let ending = after_last(s, c);
    if ending.len() < s.len() {
        lemma_before_last(s, c);
        assert(s.skip(s.len() - ending.len()) =~= ending);
    } else {
        lemma_whole(s, c);
        assert(s.skip(0) =~= s);
    }
}

/// Whether `s` ends in `.json`.
pub open spec fn ends_in_json(s: Seq<char>) -> bool {
    s.len() >= 5 && s.skip(s.len() - 5) == seq!['.'] + "json"@
}

/// A path whose last name does not end in `.json` leads to no JSON file.
proof fn lemma_not_json(path: Seq<char>)
    requires
        !starts_verbatim(path),
        !ends_in_json(trimmed(path, true)),
    ensures
        !possible_extension(path, Some("json"@)),
{
    reveal_strlit("json");
    let json = "json"@;
    if possible_extension(path, Some(json)) {
        let (front, rest) = choose|front: Seq<char>, rest: Seq<char>|
            #[trigger] is_split(path, front, json, rest);
        let base = front + seq!['.'] + json;
        assert(base.last() == json[3]);
        lemma_trimmed_off(base, rest, true);
        assert(path =~= base + rest);
        assert(base.skip(base.len() - 5) =~= seq!['.'] + json);
    }
}

/// Law: a path whose last name does not end in `.json` is refused on every platform, unless it
/// begins with two backslashes.
pub proof fn law_other_names_are_refused(path: Seq<char>, supported: bool)
    requires
        !starts_verbatim(path),
        !ends_in_json(trimmed(path, true)),
        format_verdict(path, supported),
    ensures
        !supported,
{
    lemma_not_json(path);
}

/// Law: on every platform, any stem that does not end in a separator, followed by `.json` and by
/// any slashes and single dots, can be read and written, unless it begins like the name of a
/// network share.
pub proof fn law_json_everywhere(stem: Seq<char>, rest: Seq<char>, supported: bool)
    requires
        stem.len() > 0,
        !is_separator(stem.last()),
        !(stem.len() > 1 && is_separator(stem[0]) && is_separator(stem[1])),
        is_trailing(rest, false),
        format_verdict(stem + seq!['.'] + "json"@ + rest, supported),
    ensures
        supported,
{
    reveal_strlit("json");
    let json = "json"@;
    let path = stem + seq!['.'] + json;
    assert(path.last() == json[3]);
    lemma_trimmed_off(path, rest, false);
    lemma_after_last(stem, '.', json);
    assert(path =~= stem.push('.') + json);
    assert(before_ending(path) =~= stem);
    assert forall|i: int| 0 <= i < json.len() implies !is_separator(#[trigger] json[i]) by {}
    assert(path[0] == stem[0]);
    assert(path[1] == if stem.len() > 1 { stem[1] } else { '.' });
}

/// Law: the platforms agree about portable paths, about those with a plain ending once they are
/// trimmed, and about those whose last name does not end in `.json`, unless they begin with two
/// backslashes.
pub proof fn law_agreed_paths(path: Seq<char>)
    requires
        portable(path) || has_plain_ending(trimmed(path, false)) || (!starts_verbatim(path)
            && !ends_in_json(trimmed(path, true))),
    ensures
        is_agreed(path),
{
    if !starts_verbatim(path) && !ends_in_json(trimmed(path, true)) {
        lemma_not_json(path);
    }
}

/// Law: of a portable path the answer is whether it leads to a JSON file.
pub proof fn law_portable_paths(path: Seq<char>, supported: bool)
    requires
        portable(path),
        format_verdict(path, supported),
    ensures
        supported == is_json_path(path),
{
}

/// Law: what a platform finds is always one of the extensions that are possible, and what it
/// answers is one of the answers that are.
pub proof fn law_found_is_possible(path: Seq<char>, supported: bool)
    requires
        platform_verdict(path, supported),
    ensures
        format_verdict(path, supported),
        forall|extension: Option<Seq<char>>| #[trigger]
            is_found(path, extension) ==> possible_extension(path, extension),
{
}

/// Law: `json` in lower case is the only extension of JSON files.
pub proof fn law_only_json(extension: Option<String>, res: bool)
    requires
        call_ensures(is_json, (&extension,), res),
    ensures
        res <==> (extension matches Some(ending) && ending@ == seq!['j', 's', 'o', 'n']),
{
    reveal_strlit("json");
    assert("json"@ =~= seq!['j', 's', 'o', 'n']);
}

/// Law: what is read is handed on as it is, and what is to be written goes as it is to the file
/// that was named, or the name of the file is refused.
pub proof fn law_contents_go_through<T>(
    file_name: &str,
    contents: String,
    read: Result<String, UnsupportedFormat>,
    value: T,
    written: Result<JsonFile<T>, UnsupportedFormat>,
)
    requires
        call_ensures(read_input, (file_name, contents), read),
        call_ensures(write_output::<T>, (file_name, value), written),
    ensures
        read matches Ok(text) ==> text == contents,
        written matches Ok(file) ==> file.value == value && file.file_name@ == file_name@,
        format_verdict(file_name@, read is Ok),
        format_verdict(file_name@, written is Ok),
        platform_verdict(file_name@, read is Ok),
        platform_verdict(file_name@, written is Ok),
        is_agreed(file_name@) ==> (read is Ok <==> written is Ok),
{
    assert(format_verdict(file_name@, read is Ok));
    assert(format_verdict(file_name@, written is Ok));
}

/// Law: any stem that does not end in a separator, followed by `.json`, can be read and written,
/// unless it begins like the name of a network share.
pub proof fn law_json_files_are_taken<T>(
    file_name: &str,
    stem: Seq<char>,
    contents: String,
    read: Result<String, UnsupportedFormat>,
    value: T,
    written: Result<JsonFile<T>, UnsupportedFormat>,
)
    requires
        file_name@ == stem + seq!['.', 'j', 's', 'o', 'n'],
        stem.len() > 0,
        stem.last() != '/' && stem.last() != '\\' && stem.last() != ':',
        stem.len() > 1 ==> stem[0] != '/' && stem[0] != '\\' && stem[0] != ':',
        call_ensures(read_input, (file_name, contents), read),
        call_ensures(write_output::<T>, (file_name, value), written),
    ensures
        read matches Ok(text) && text == contents,
        written matches Ok(file) && file.value == value && file.file_name@ == file_name@,
{
    law_contents_go_through(file_name, contents, read, value, written);
    reveal_strlit("json");
    assert(file_name@ =~= stem + seq!['.'] + "json"@ + Seq::empty());
    law_json_everywhere(stem, Seq::empty(), read is Ok);
    law_json_everywhere(stem, Seq::empty(), written is Ok);
}

/// Law: a name that holds no separator and does not end in `.json` after a stem can neither be
/// read nor written.
pub proof fn law_other_files_are_refused<T>(
    file_name: &str,
    contents: String,
    read: Result<String, UnsupportedFormat>,
    value: T,
    written: Result<JsonFile<T>, UnsupportedFormat>,
)
    requires
        forall|i: int|
            0 <= i < file_name@.len() ==> {
                &&& #[trigger] file_name@[i] != '/'
                &&& file_name@[i] != '\\'
                &&& file_name@[i] != ':'
            },
        !(file_name@.len() > 5 && file_name@.skip(file_name@.len() - 5) == seq![
            '.',
            'j',
            's',
            'o',
            'n',
        ]),
        call_ensures(read_input, (file_name, contents), read),
        call_ensures(write_output::<T>, (file_name, value), written),
    ensures
        read is Err,
        written is Err,
{
    law_contents_go_through(file_name, contents, read, value, written);
    let name = file_name@;
    assert(portable(name));
    law_portable_paths(name, read is Ok);
    law_portable_paths(name, written is Ok);
    law_json_names(name);
    if is_json_path(name) {
        let stem = choose|stem: Seq<char>|
            stem.len() > 0 && name == #[trigger] (stem + seq!['.'] + "json"@);
        reveal_strlit("json");
        assert(name.skip(name.len() - 5) =~= seq!['.', 'j', 's', 'o', 'n']);
    }
}

} // verus!
