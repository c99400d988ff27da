//! Paths, taken by their letters alone: the file system is not looked at.

use vstd::prelude::*;

use crate::text::{chars_of, joined, joined3, same_text};

verus! {

/// Whether a path starts at the root.
pub open spec fn absolute(path: Seq<char>) -> bool {
    path.len() > 0 && path[0] == '/'
}

/// `path` below the directory `dir`.
pub open spec fn below(dir: Seq<char>, path: Seq<char>) -> Seq<char> {
    if dir.len() == 0 || dir.last() == '/' {
        dir + path
    } else {
        dir.push('/') + path
    }
}

/// Whether a path starts at the root.
pub fn is_absolute(path: &str) -> (r: bool)
    ensures
        r == absolute(path@),
{
    let chars = chars_of(path);
    chars.len() > 0 && chars[0] == '/'
}

/// `path` below the directory `dir`.
pub fn path_below(dir: &str, path: &str) -> (r: String)
    ensures
        r@ == below(dir@, path@),
{
    let chars = chars_of(dir);
    if chars.len() == 0 || chars[chars.len() - 1] == '/' {
        joined(dir, path)
    } else {
        let r = joined3(dir, "/", path);
        proof {
            reveal_strlit("/");
            assert(dir@ + "/"@ =~= dir@.push('/'));
        }
        r
    }
}

/// The parts of a path between its slashes.
pub open spec fn parts(path: Seq<char>) -> Seq<Seq<char>>
    decreases path.len(),
{
    if path.len() == 0 {
        seq![Seq::empty()]
    } else {
        let before = parts(path.drop_last());
        if path.last() == '/' {
            before.push(Seq::empty())
        } else {
            before.drop_last().push(before.last().push(path.last()))
        }
    }
}

/// The directories on the way once one more part is followed: an empty part and
/// `.` stay, `..` goes up and stays at the root.
pub open spec fn followed(way: Seq<Seq<char>>, part: Seq<char>) -> Seq<Seq<char>> {
    if part.len() == 0 || part == "."@ {
        way
    } else if part == ".."@ {
        if way.len() > 0 {
            way.drop_last()
        } else {
            way
        }
    } else {
        way.push(part)
    }
}

/// The directories on the way along `parts`, from the root on.
pub open spec fn way(parts: Seq<Seq<char>>) -> Seq<Seq<char>>
    decreases parts.len(),
{
    if parts.len() == 0 {
        Seq::empty()
    } else {
        followed(way(parts.drop_last()), parts.last())
    }
}

/// The directories on the way, each after a slash.
pub open spec fn slashed(way: Seq<Seq<char>>) -> Seq<char>
    decreases way.len(),
{
    if way.len() == 0 {
        Seq::empty()
    } else {
        slashed(way.drop_last()) + seq!['/'] + way.last()
    }
}

/// The path along the directories, from the root on.
pub open spec fn path_along(way: Seq<Seq<char>>) -> Seq<char> {
    if way.len() == 0 {
        seq!['/']
    } else {
        slashed(way)
    }
}

/// An absolute path without `.`, `..` and empty parts.
pub open spec fn normalized(path: Seq<char>) -> Seq<char> {
    path_along(way(parts(path)))
}

/// Follows one more part.
fn follow(way: &mut Vec<String>, part: String)
    ensures
        crate::text::texts(final(way)@) == followed(crate::text::texts(old(way)@), part@),
{
    let ghost before = crate::text::texts(way@);
    let empty = chars_of(part.as_str()).len() == 0;
    if empty || same_text(part.as_str(), ".") {
        return;
    }
    if same_text(part.as_str(), "..") {
        if way.len() > 0 {
            way.pop();
            assert(crate::text::texts(way@) =~= before.drop_last());
        }
        return;
    }
    way.push(part);
    assert(crate::text::texts(way@) =~= before.push(part@));
}

/// The path along the directories, from the root on.
fn write_path(way: &Vec<String>) -> (r: String)
    ensures
        r@ == path_along(crate::text::texts(way@)),
{
    let ghost all = crate::text::texts(way@);
    let mut path = String::new();
    let mut i: usize = 0;
    while i < way.len()
        invariant
            i <= way@.len(),
            all == crate::text::texts(way@),
            path@ == slashed(all.take(i as int)),
        decreases way@.len() - i,
    {
        assert(all.take(i + 1).drop_last() =~= all.take(i as int));
        path.push('/');
        path.append(way[i].as_str());
        assert(path@ =~= slashed(all.take(i as int)) + seq!['/'] + all[i as int]);
        i += 1;
    }
    assert(all.take(i as int) =~= all);
    if way.len() == 0 {
        path.push('/');
        assert(path@ =~= seq!['/']);
    }
    path
}

/// Makes an absolute path free of `.`, `..` and empty parts.
pub fn normalize_path(path: &str) -> (r: String)
    requires
        absolute(path@),
    ensures
        r@ == normalized(path@),
{
    let chars = chars_of(path);
    let mut along: Vec<String> = Vec::new();
    let mut part = String::new();
    let mut i: usize = 0;
    assert(chars@.take(0) =~= Seq::empty());
    assert(crate::text::texts(along@) =~= Seq::empty());
    assert(parts(chars@.take(0)).drop_last() =~= Seq::empty());
    while i < chars.len()
        invariant
            i <= chars@.len(),
            parts(chars@.take(i as int)).len() > 0,
            part@ == parts(chars@.take(i as int)).last(),
            crate::text::texts(along@) == way(parts(chars@.take(i as int)).drop_last()),
        decreases chars@.len() - i,
    {
        let ghost before = parts(chars@.take(i as int));
        assert(chars@.take(i + 1).drop_last() =~= chars@.take(i as int));
        let c = chars[i];
        if c == '/' {
            follow(&mut along, part);
            part = String::new();
            assert(before.push(Seq::empty()).drop_last() =~= before);
        } else {
            part.push(c);
            let ghost grown = before.drop_last().push(before.last().push(c));
            assert(grown.drop_last() =~= before.drop_last());
        }
        i += 1;
    }
    assert(chars@.take(i as int) =~= chars@);
    follow(&mut along, part);
    write_path(&along)
}

/// A part that names a directory: not empty, not `.` or `..`, and without slashes.
pub open spec fn names_directory(part: Seq<char>) -> bool {
    part.len() > 0 && part != "."@ && part != ".."@ && !part.contains('/')
}

/// Whether each part names a directory.
pub open spec fn all_name_directories(parts: Seq<Seq<char>>) -> bool {
    forall|i: int| 0 <= i < parts.len() ==> names_directory(#[trigger] parts[i])
}

/// The parts of a path have no slashes in them.
proof fn parts_have_no_slashes(path: Seq<char>)
    ensures
        parts(path).len() > 0,
        forall|i: int| 0 <= i < parts(path).len() ==> !(#[trigger] parts(path)[i]).contains('/'),
    decreases path.len(),
{
    if path.len() > 0 {
        let before = parts(path.drop_last());
        parts_have_no_slashes(path.drop_last());
        if path.last() != '/' {
            let grown = before.last().push(path.last());
            assert forall|k: int| 0 <= k < grown.len() implies grown[k] != '/' by {
                if k < before.last().len() {
                    assert(before.last().contains(before.last()[k]));
                }
            }
            assert(!grown.contains('/'));
        }
    }
}

/// All that is on the way names directories.
proof fn way_names_directories(along: Seq<Seq<char>>)
    requires
        forall|i: int| 0 <= i < along.len() ==> !(#[trigger] along[i]).contains('/'),
    ensures
        all_name_directories(way(along)),
    decreases along.len(),
{
    if along.len() > 0 {
        assert forall|i: int| 0 <= i < along.drop_last().len() implies !(
        #[trigger] along.drop_last()[i]).contains('/') by {
            assert(along.drop_last()[i] == along[i]);
        }
        way_names_directories(along.drop_last());
        assert(!along[along.len() - 1].contains('/'));
    }
}

/// The parts of a path that goes on without a slash.
proof fn parts_going_on(path: Seq<char>, more: Seq<char>)
    requires
        !more.contains('/'),
    ensures
        parts(path + more) == parts(path).drop_last().push(parts(path).last() + more),
    decreases more.len(),
{
    parts_have_no_slashes(path);
    if more.len() == 0 {
        assert(path + more =~= path);
        assert(parts(path).last() + more =~= parts(path).last());
        assert(parts(path).drop_last().push(parts(path).last()) =~= parts(path));
    } else {
        let less = more.drop_last();
        assert(!less.contains('/')) by {
            if less.contains('/') {
                let k = choose|k: int| 0 <= k < less.len() && less[k] == '/';
                assert(more[k] == '/');
            }
        }
        assert(more[more.len() - 1] != '/');
        parts_going_on(path, less);
        assert((path + more).drop_last() =~= path + less);
        let before = parts(path).drop_last().push(parts(path).last() + less);
        assert(before.drop_last() =~= parts(path).drop_last());
        assert((parts(path).last() + less).push(more.last()) =~= parts(path).last() + more);
    }
}

/// The parts of a path along directories are those directories, after an empty one.
proof fn parts_of_slashed(along: Seq<Seq<char>>)
    requires
        all_name_directories(along),
    ensures
        parts(slashed(along)) == seq![Seq::<char>::empty()] + along,
    decreases along.len(),
{
    if along.len() == 0 {
        assert(seq![Seq::<char>::empty()] + along =~= seq![Seq::<char>::empty()]);
    } else {
        let before = along.drop_last();
        assert(all_name_directories(before)) by {
            assert forall|i: int| 0 <= i < before.len() implies names_directory(
                #[trigger] before[i],
            ) by {
                assert(before[i] == along[i]);
            }
        }
        parts_of_slashed(before);
        assert(names_directory(along[along.len() - 1]));
        let stem = slashed(before) + seq!['/'];
        assert(stem.drop_last() =~= slashed(before));
        let stem_parts = (seq![Seq::<char>::empty()] + before).push(Seq::empty());
        assert(parts(stem) == stem_parts);
        parts_going_on(stem, along.last());
        assert(stem_parts.drop_last() =~= seq![Seq::<char>::empty()] + before);
        assert(Seq::<char>::empty() + along.last() =~= along.last());
        assert((seq![Seq::<char>::empty()] + before).push(along.last()) =~= seq![
            Seq::<char>::empty(),
        ] + along);
    }
}

/// Following directories from the root on passes all of them.
proof fn way_along_directories(along: Seq<Seq<char>>)
    requires
        all_name_directories(along),
    ensures
        way(seq![Seq::<char>::empty()] + along) == along,
    decreases along.len(),
{
    let all = seq![Seq::<char>::empty()] + along;
    if along.len() == 0 {
        assert(all.drop_last() =~= Seq::empty());
        assert(way(all.drop_last()) =~= Seq::empty());
        assert(all.last() =~= Seq::empty());
        assert(along =~= Seq::empty());
    } else {
        let before = along.drop_last();
        assert(all_name_directories(before)) by {
            assert forall|i: int| 0 <= i < before.len() implies names_directory(
                #[trigger] before[i],
            ) by {
                assert(before[i] == along[i]);
            }
        }
        way_along_directories(before);
        assert(all.drop_last() =~= seq![Seq::<char>::empty()] + before);
        assert(names_directory(along[along.len() - 1]));
        assert(before.push(along.last()) =~= along);
    }
}

/// A path that is free of `.`, `..` and empty parts starts at the root, its parts
/// name directories, and it stays as it is when it is freed of them again.
pub proof fn normalized_path_is_plain(path: Seq<char>)
    ensures
        absolute(normalized(path)),
        all_name_directories(way(parts(path))),
        normalized(normalized(path)) == normalized(path),
{
    let along = way(parts(path));
    parts_have_no_slashes(path);
    way_names_directories(parts(path));
    parts_of_slashed(along);
    way_along_directories(along);
    slashed_starts_with_slash(along);
    if along.len() == 0 {
        let root = seq!['/'];
        assert(root.drop_last() =~= Seq::empty());
        assert(parts(root) =~= seq![Seq::<char>::empty(), Seq::empty()]);
        reveal_with_fuel(way, 3);
        assert(way(parts(root)) =~= Seq::empty());
    }
}

/// What is written for directories starts with a slash.
proof fn slashed_starts_with_slash(along: Seq<Seq<char>>)
    ensures
        along.len() > 0 ==> slashed(along).len() > 0 && slashed(along)[0] == '/',
    decreases along.len(),
{
    if along.len() > 0 {
        let before = slashed(along.drop_last());
        slashed_starts_with_slash(along.drop_last());
        assert((before + seq!['/'] + along.last())[0] == (before + seq!['/'])[0]);
    }
}

/// The parts of a path that goes on by one part.
proof fn parts_with_one_more(path: Seq<char>, part: Seq<char>)
    requires
        !part.contains('/'),
    ensures
        parts(path + seq!['/'] + part) == parts(path).push(part),
        way(parts(path + seq!['/'] + part)) == followed(way(parts(path)), part),
{
    let stem = path + seq!['/'];
    assert(stem.drop_last() =~= path);
    parts_going_on(stem, part);
    assert(parts(stem) == parts(path).push(Seq::empty()));
    assert(parts(stem).drop_last() =~= parts(path));
    assert(Seq::<char>::empty() + part =~= part);
    assert(parts(path).push(part).drop_last() =~= parts(path));
}

/// The path along directories is longer than the root.
proof fn root_has_no_directories(along: Seq<Seq<char>>)
    requires
        all_name_directories(along),
    ensures
        path_along(along) == seq!['/'] <==> along.len() == 0,
{
    if along.len() > 0 {
        assert(names_directory(along[along.len() - 1]));
        assert(slashed(along).len() >= 2);
    }
}

/// What a part does to a path, once the path is free of detours: a directory is added at
/// the end, behind one slash; an empty part and `.` change nothing; `..` takes back the
/// directory before it, and stays at the root.
pub proof fn path_is_followed_part_by_part(
    path: &str,
    part: Seq<char>,
    longer: &str,
    directory: Seq<char>,
    back: &str,
    at: String,
    further: String,
    returned: String,
)
    requires
        absolute(path@),
        !part.contains('/'),
        longer@ == path@ + seq!['/'] + part,
        names_directory(directory),
        back@ == path@ + seq!['/'] + directory + seq!['/'] + ".."@,
        call_ensures(normalize_path, (path,), at),
        call_ensures(normalize_path, (longer,), further),
        call_ensures(normalize_path, (back,), returned),
    ensures
        absolute(at@),
        part.len() == 0 || part == "."@ ==> further@ == at@,
        names_directory(part) && at@ != seq!['/'] ==> further@ == at@ + seq!['/'] + part,
        names_directory(part) && at@ == seq!['/'] ==> further@ == seq!['/'] + part,
        part == ".."@ && at@ == seq!['/'] ==> further@ == seq!['/'],
        part == ".."@ && at@ != seq!['/'] ==> exists|left: Seq<char>| #[trigger]
            names_directory(left) && at@ == (if further@ == seq!['/'] {
                seq!['/'] + left
            } else {
                further@ + seq!['/'] + left
            }),
        returned@ == at@,
        path@ == seq!['/'] ==> at@ == seq!['/'],
{
    let along = way(parts(path@));
    normalized_path_is_plain(path@);
    parts_with_one_more(path@, part);
    root_has_no_directories(along);
    reveal_strlit(".");
    reveal_strlit("..");
    assert("."@.len() == 1 && ".."@.len() == 2);
    if names_directory(part) {
        assert(followed(along, part) == along.push(part));
        assert(along.push(part).drop_last() =~= along);
        if along.len() == 0 {
            assert(slashed(along) =~= Seq::empty());
            assert(path_along(along.push(part)) =~= seq!['/'] + part);
        }
    }
    if part == ".."@ && along.len() > 0 {
        let left = along.last();
        assert(names_directory(along[along.len() - 1]));
        assert(names_directory(left));
        let upper = along.drop_last();
        assert forall|k: int| 0 <= k < upper.len() implies names_directory(
            #[trigger] upper[k],
        ) by {
            assert(upper[k] == along[k]);
        }
        root_has_no_directories(upper);
        if upper.len() == 0 {
            assert(slashed(upper) =~= Seq::empty());
            assert(at@ =~= seq!['/'] + left);
        }
    }
    parts_with_one_more(path@, directory);
    let there = path@ + seq!['/'] + directory;
    assert(!".."@.contains('/')) by {
        assert(".."@[0] == '.' && ".."@[1] == '.');
    }
    parts_with_one_more(there, ".."@);
    assert(along.push(directory).drop_last() =~= along);
    root_is_plain();
}

/// The root is free of detours.
proof fn root_is_plain()
    ensures
        way(parts(seq!['/'])).len() == 0,
{
    let root = seq!['/'];
    assert(root.drop_last() =~= Seq::empty());
    assert(parts(Seq::<char>::empty()) =~= seq![Seq::<char>::empty()]);
    assert(parts(root) =~= seq![Seq::<char>::empty(), Seq::empty()]);
    reveal_with_fuel(way, 3);
    assert(way(parts(root)) =~= Seq::empty());
}

/// A path is absolute exactly where a slash is its first character; one below a
/// directory starts with the directory and ends with the path, with one slash between.
pub proof fn path_below_a_directory(
    dir: &str,
    path: &str,
    r: String,
    rooted: bool,
)
    requires
        call_ensures(path_below, (dir, path), r),
        call_ensures(is_absolute, (path,), rooted),
    ensures
        rooted <==> path@.len() > 0 && path@[0] == '/',
        r@.take(dir@.len() as int) == dir@,
        r@.skip(r@.len() - path@.len()) == path@,
        dir@.len() == 0 || dir@.last() == '/' ==> r@.len() == dir@.len() + path@.len(),
        dir@.len() > 0 && dir@.last() != '/' ==> r@.len() == dir@.len() + path@.len() + 1
            && r@[dir@.len() as int] == '/',
{
    assert(r@.take(dir@.len() as int) =~= dir@);
    assert(r@.skip(r@.len() - path@.len()) =~= path@);
}

} // verus!
