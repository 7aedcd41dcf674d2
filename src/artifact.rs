//! Conversion of a maven coordinate (`group:name:version[:data][@ext]`) into the
//! relative path of its file in a repository.
use vstd::prelude::*;

use crate::MetadataError;

verus! {

/// The pieces of `s` between occurrences of `sep`; there is always at least one.
pub open spec fn split_on(s: Seq<char>, sep: char) -> Seq<Seq<char>>
    decreases s.len(),
{
    if s.len() == 0 {
        seq![Seq::empty()]
    } else {
        let p = split_on(s.drop_last(), sep);
        if s.last() == sep {
            p.push(Seq::empty())
        } else {
            p.update(p.len() - 1, p.last().push(s.last()))
        }
    }
}

pub proof fn lemma_split_on_nonempty(s: Seq<char>, sep: char)
    ensures
        split_on(s, sep).len() >= 1,
    decreases s.len(),
{
    if s.len() > 0 {
        lemma_split_on_nonempty(s.drop_last(), sep);
    }
}

/// `s` with every `.` turned into `/`.
pub open spec fn dots_to_slashes(s: Seq<char>) -> Seq<char> {
    Seq::new(s.len(), |i: int| if s[i] == '.' { '/' } else { s[i] })
}

/// The extension after an `@`, else `jar`.
pub open spec fn extension_of(pieces: Seq<Seq<char>>) -> Seq<char> {
    if pieces.len() > 1 {
        pieces[1]
    } else {
        "jar"@
    }
}

/// The repository path of a maven coordinate, where it has a name and a version.
pub open spec fn artifact_path(a: Seq<char>) -> Option<Seq<char>> {
    let items = split_on(a, ':');
    if items.len() == 3 {
        let ve = split_on(items[2], '@');
        Some(
            dots_to_slashes(items[0]) + "/"@ + items[1] + "/"@ + ve[0] + "/"@ + items[1] + "-"@
                + ve[0] + "."@ + extension_of(ve),
        )
    } else if items.len() >= 4 {
        let de = split_on(items[3], '@');
        Some(
            dots_to_slashes(items[0]) + "/"@ + items[1] + "/"@ + items[2] + "/"@ + items[1] + "-"@
                + items[2] + "-"@ + de[0] + "."@ + extension_of(de),
        )
    } else {
        None
    }
}

/// The message for a coordinate that has no path: it lacks a name, or a version.
pub open spec fn artifact_error(a: Seq<char>) -> Seq<char> {
    if split_on(a, ':').len() < 2 {
        "Unable to find name for library "@ + a
    } else {
        "Unable to find version for library "@ + a
    }
}

pub open spec fn string_views(v: Seq<String>) -> Seq<Seq<char>> {
    v.map_values(|x: String| x@)
}

fn split_pieces(s: &str, sep: char) -> (r: Vec<String>)
    ensures
        string_views(r@) == split_on(s@, sep),
{
    let n = s.unicode_len();
    let mut pieces: Vec<String> = Vec::new();
    let mut start: usize = 0;
    let mut i: usize = 0;
    assert(s@.subrange(0, 0) =~= Seq::<char>::empty());
    assert(string_views(pieces@).push(s@.subrange(0, 0)) =~= seq![Seq::<char>::empty()]);
    while i < n
        invariant
            n == s@.len(),
            start <= i <= n,
            split_on(s@.subrange(0, i as int), sep) == string_views(pieces@).push(
                s@.subrange(start as int, i as int),
            ),
        decreases n - i,
    {
        let c = s.get_char(i);
        let ghost prev = s@.subrange(0, i as int);
        let ghost next = s@.subrange(0, i + 1);
        assert(next.drop_last() =~= prev);
        assert(next.last() == c);
        if c == sep {
            let piece = s.substring_char(start, i).to_owned();
            let ghost done = pieces@;
            pieces.push(piece);
            proof {
                assert(string_views(pieces@) =~= string_views(done).push(piece@));
            }
            start = i + 1;
            proof {
                assert(s@.subrange(start as int, i + 1) =~= Seq::<char>::empty());
                assert(split_on(next, sep) =~= string_views(pieces@).push(
                    s@.subrange(start as int, i + 1),
                ));
            }
        } else {
            proof {
                assert(s@.subrange(start as int, i + 1) =~= s@.subrange(start as int, i as int).push(c));
                assert(split_on(next, sep) =~= string_views(pieces@).push(
                    s@.subrange(start as int, i + 1),
                ));
            }
        }
        i = i + 1;
    }
    let last = s.substring_char(start, n).to_owned();
    let ghost before = pieces@;
    pieces.push(last);
    assert(s@.subrange(0, n as int) =~= s@);
    assert(string_views(pieces@) =~= string_views(before).push(last@));
    pieces
}

fn dots_to_slashes_exec(s: &str) -> (r: String)
    ensures
        r@ == dots_to_slashes(s@),
{
    let n = s.unicode_len();
    let mut out = String::new();
    let mut i: usize = 0;
    while i < n
        invariant
            n == s@.len(),
            i <= n,
            out@ =~= Seq::new(i as nat, |j: int| if s@[j] == '.' { '/' } else { s@[j] }),
        decreases n - i,
    {
        let c = s.get_char(i);
        let ghost before = out@;
        if c == '.' {
            proof {
                reveal_strlit("/");
            }
            out.append("/");
        } else {
            let one = s.substring_char(i, i + 1);
            assert(one@ =~= seq![c]);
            out.append(one);
        }
        assert(out@ =~= before.push(if c == '.' { '/' } else { c }));
        i = i + 1;
    }
    out
}

fn extension(pieces: &Vec<String>) -> (r: &str)
    ensures
        r@ == extension_of(string_views(pieces@)),
{
    if pieces.len() > 1 {
        pieces[1].as_str()
    } else {
        "jar"
    }
}

/// Converts a maven coordinate to the relative path of its file.
pub fn get_path_from_artifact(artifact: &str) -> (r: Result<String, MetadataError>)
    ensures
        match artifact_path(artifact@) {
            Some(p) => r matches Ok(s) && s@ == p,
            None => r matches Err(MetadataError::ParseError(m)) && m@ == artifact_error(artifact@),
        },
{
    let items = split_pieces(artifact, ':');
    proof {
        lemma_split_on_nonempty(artifact@, ':');
    }
    if items.len() < 2 {
        return Err(
            MetadataError::ParseError(
                String::from_str("Unable to find name for library ").concat(artifact),
            ),
        );
    }
    if items.len() == 2 {
        return Err(
            MetadataError::ParseError(
                String::from_str("Unable to find version for library ").concat(artifact),
            ),
        );
    }
    let package = dots_to_slashes_exec(items[0].as_str());
    let name = items[1].as_str();
    if items.len() == 3 {
        let version_ext = split_pieces(items[2].as_str(), '@');
        proof {
            lemma_split_on_nonempty(items@[2]@, '@');
        }
        let version = version_ext[0].as_str();
        let ext = extension(&version_ext);
        let mut out = package;
        out.append("/");
        out.append(name);
        out.append("/");
        out.append(version);
        out.append("/");
        out.append(name);
        out.append("-");
        out.append(version);
        out.append(".");
        out.append(ext);
        Ok(out)
    } else {
        let version = items[2].as_str();
        let data_ext = split_pieces(items[3].as_str(), '@');
        proof {
            lemma_split_on_nonempty(items@[3]@, '@');
        }
        let data = data_ext[0].as_str();
        let ext = extension(&data_ext);
        let mut out = package;
        out.append("/");
        out.append(name);
        out.append("/");
        out.append(version);
        out.append("/");
        out.append(name);
        out.append("-");
        out.append(version);
        out.append("-");
        out.append(data);
        out.append(".");
        out.append(ext);
        Ok(out)
    }
}

} // verus!
