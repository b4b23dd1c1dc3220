//! `std::path` as the library sees it: a path is the sequence of its encoded bytes.

use std::path::{Path, PathBuf};
use vstd::prelude::*;
use vstd::utf8::{decode_utf8, valid_utf8};

verus! {

/// `/`, the separator of path components.
pub const SLASH: u8 = 0x2f;

/// `.`, the component that names its own directory.
pub const DOT: u8 = 0x2e;

/// `\`, on Windows a separator too.
pub const BACKSLASH: u8 = 0x5c;

/// `:`, which on Windows stands behind a drive letter.
pub const COLON: u8 = 0x3a;

/// `std::path::Path`, a borrowed path. Its contents are [`path_bytes`].
#[verifier::external_type_specification]
#[verifier::external_body]
pub struct ExPath(std::path::Path);

/// `std::path::PathBuf`, an owned path. Its contents are [`path_buf_bytes`].
#[verifier::external_type_specification]
#[verifier::external_body]
pub struct ExPathBuf(std::path::PathBuf);

/// The encoded bytes of a borrowed path, an encoding that extends UTF-8.
pub uninterp spec fn path_bytes(path: &Path) -> Seq<u8>;

/// The encoded bytes of an owned path, an encoding that extends UTF-8.
pub uninterp spec fn path_buf_bytes(path: &PathBuf) -> Seq<u8>;

/// What `Path::parent` returns for a path: the path without its final component, `None` where
/// there is no component to leave out (the empty path, a filesystem root).
pub uninterp spec fn parent_bytes(path: Seq<u8>) -> Option<Seq<u8>>;

/// `path` has the same components on Unix and on Windows: it holds no backslash, which only Windows
/// reads as a separator, and begins neither with a drive letter and its colon nor with two
/// separators, which only Windows reads as a prefix.
pub open spec fn is_portable(path: Seq<u8>) -> bool {
    &&& !path.contains(BACKSLASH)
    &&& path.len() >= 2 ==> path[1] != COLON && !(path[0] == SLASH && path[1] == SLASH)
}

/// What stands behind the last separator of a path.
pub open spec fn last_name(path: Seq<u8>) -> Seq<u8>
    decreases path.len(),
{
    if path.len() == 0 || path.last() == SLASH {
        Seq::empty()
    } else {
        last_name(path.drop_last()).push(path.last())
    }
}

/// A path without the separators and the `.` components at its end; the root stays, and so does a
/// path that is `.` alone.
pub open spec fn settled(path: Seq<u8>) -> Seq<u8>
    decreases path.len(),
{
    if path.len() > 1 && (path.last() == SLASH || path.last() == DOT && path[path.len() - 2]
        == SLASH) {
        settled(path.drop_last())
    } else {
        path
    }
}

/// A portable path without its final component; the empty path and the root have none.
pub open spec fn portable_parent(path: Seq<u8>) -> Option<Seq<u8>> {
    let path = settled(path);
    let name = last_name(path);
    if name.len() == 0 {
        None
    } else {
        Some(settled(path.take(path.len() - name.len())))
    }
}

/// The directory that holds what stands at a path.
pub open spec fn parent_of(path: Seq<u8>) -> Option<Seq<u8>> {
    if is_portable(path) {
        portable_parent(path)
    } else {
        parent_bytes(path)
    }
}

/// `Path::to_path_buf` copies a path.
pub assume_specification[ Path::to_path_buf ](path: &Path) -> (owned: PathBuf)
    ensures
        path_buf_bytes(&owned) == path_bytes(path),
;

/// `PathBuf::as_path` borrows a path.
pub assume_specification[ PathBuf::as_path ](path: &PathBuf) -> (borrowed: &Path)
    ensures
        path_bytes(borrowed) == path_buf_bytes(path),
;

/// `Path::parent` leaves out the final component of a path: what is left is a shorter beginning of
/// it, `None` stands for a path without one. Of a path that Unix and Windows read alike the parent
/// is [`portable_parent`]: repeated separators, a separator at the end and `.` components behind
/// the beginning are no components. Which components any other path has is the platform's matter,
/// so there the result has but a name, [`parent_bytes`].
pub assume_specification[ Path::parent ](path: &Path) -> (dir: Option<&Path>)
    ensures
        match dir {
            Some(dir) => {
                &&& parent_bytes(path_bytes(path)) == Some(path_bytes(dir))
                &&& path_bytes(dir).len() < path_bytes(path).len()
                &&& path_bytes(dir).is_prefix_of(path_bytes(path))
            },
            None => parent_bytes(path_bytes(path)) is None,
        },
        is_portable(path_bytes(path)) ==> match dir {
            Some(dir) => portable_parent(path_bytes(path)) == Some(path_bytes(dir)),
            None => portable_parent(path_bytes(path)) is None,
        },
;

/// `Path::to_str` gives a path's text where the path is valid Unicode, and `None` where it is not.
pub assume_specification[ Path::to_str ](path: &Path) -> (text: Option<&str>)
    ensures
        match text {
            Some(text) => valid_utf8(path_bytes(path)) && text@ == decode_utf8(path_bytes(path)),
            None => !valid_utf8(path_bytes(path)),
        },
;

/// The path of the entry `name` of a directory.
pub open spec fn entry(dir: Seq<u8>, name: Seq<u8>) -> Seq<u8> {
    if dir.len() == 0 || dir.last() == SLASH {
        dir + name
    } else {
        dir.push(SLASH) + name
    }
}

/// `name` is one component: not empty, without a separator, and not `.`, which names its directory.
pub open spec fn is_entry_name(name: Seq<u8>) -> bool {
    name.len() > 0 && !name.contains(SLASH) && name != seq![DOT]
}

/// The named components of a path, the outermost first.
pub open spec fn names(path: Seq<u8>) -> Seq<Seq<u8>>
    decreases path.len(),
{
    if path.len() == 0 {
        Seq::empty()
    } else if path.last() == SLASH {
        names(path.drop_last())
    } else {
        proof {
            lemma_last_name(path);
        }
        let name = last_name(path);
        let before = names(path.take(path.len() - name.len()));
        if name == seq![DOT] {
            before
        } else {
            before.push(name)
        }
    }
}

/// The component at the beginning of a path that names nothing: the root, or the `.` of a path that
/// begins with one.
pub open spec fn start(path: Seq<u8>) -> Seq<Seq<u8>> {
    if path.len() > 0 && path[0] == SLASH {
        seq![seq![SLASH]]
    } else if path.len() > 0 && path[0] == DOT && (path.len() == 1 || path[1] == SLASH) {
        seq![seq![DOT]]
    } else {
        Seq::empty()
    }
}

/// The components of a portable path. Two paths with the same components are the same path.
pub open spec fn components(path: Seq<u8>) -> Seq<Seq<u8>> {
    start(path) + names(path)
}

/// The last name of a path is the longest end of it without a separator.
pub proof fn lemma_last_name(path: Seq<u8>)
    ensures
        last_name(path).len() <= path.len(),
        last_name(path).len() == 0 <==> path.len() == 0 || path.last() == SLASH,
        last_name(path) == path.skip(path.len() - last_name(path).len()),
        last_name(path).len() < path.len() ==> path[path.len() - last_name(path).len() - 1] == SLASH,
        !last_name(path).contains(SLASH),
    decreases path.len(),
{
    if path.len() > 0 && path.last() != SLASH {
        lemma_last_name(path.drop_last());
    }
}

proof fn lemma_name_behind(before: Seq<u8>, name: Seq<u8>)
    requires
        before.len() == 0 || before.last() == SLASH,
        !name.contains(SLASH),
    ensures
        last_name(before + name) == name,
    decreases name.len(),
{
    if name.len() > 0 {
        assert((before + name).drop_last() =~= before + name.drop_last());
        lemma_name_behind(before, name.drop_last());
    }
}

/// Separators and `.` components at the end of a path make no difference to where it leads.
pub proof fn a_settled_path_is_the_same_path(path: Seq<u8>)
    ensures
        components(settled(path)) == components(path),
        settled(path).is_prefix_of(path),
        settled(settled(path)) == settled(path),
    decreases path.len(),
{
    if path.len() > 1 && (path.last() == SLASH || path.last() == DOT && path[path.len() - 2]
        == SLASH) {
        let shorter = path.drop_last();
        a_settled_path_is_the_same_path(shorter);
        assert(last_name(shorter).push(DOT) =~= seq![DOT] || path.last() == SLASH) by {
            lemma_last_name(shorter);
        }
    }
}

/// The directory that holds an entry is the directory it is an entry of, and of the entry's
/// components only the last is not the directory's.
pub proof fn the_parent_of_an_entry_is_its_directory(dir: Seq<u8>, name: Seq<u8>)
    requires
        is_entry_name(name),
        is_portable(entry(dir, name)),
    ensures
        parent_of(entry(dir, name)) == Some(settled(dir)),
        names(entry(dir, name)) == names(dir).push(name),
{
    let path = entry(dir, name);
    let before = if dir.len() == 0 || dir.last() == SLASH {
        dir
    } else {
        dir.push(SLASH)
    };
    lemma_name_behind(before, name);
    assert(path.take(path.len() - name.len()) =~= before);
    if name.len() == 1 {
        assert(name =~= seq![name.last()]);
    }
    assert(dir.push(SLASH).drop_last() =~= dir);
    assert(names(path) == names(before).push(name));
}

/// Among the portable paths only the root and the empty path have no parent.
pub proof fn only_a_root_has_no_parent(path: Seq<u8>)
    requires
        is_portable(path),
    ensures
        parent_of(path) is None <==> settled(path) == Seq::<u8>::empty() || settled(path)
            == seq![SLASH],
{
    let rest = settled(path);
    a_settled_path_is_the_same_path(path);
    lemma_last_name(rest);
    if rest.len() > 1 {
        a_settled_path_is_the_same_path(rest.drop_last());
    } else if rest.len() == 1 {
        assert(rest =~= seq![rest[0]]);
    } else {
        assert(rest =~= Seq::empty());
    }
}

} // verus!
