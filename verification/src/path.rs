//! Unix paths as text: joining, comparing and taking them apart the way the
//! standard library's `Path` does.

use crate::text::{chars_of, contains, lemma_texts_push, pieces, same, split, text_of, texts};
use vstd::prelude::*;

verus! {

/// A path that starts at the root directory.
pub open spec fn absolute(path: Seq<char>) -> bool {
    path.len() > 0 && path[0] == '/'
}

/// `path` taken relative to `base`: an absolute path stands for itself.
pub open spec fn join(base: Seq<char>, path: Seq<char>) -> Seq<char> {
    if absolute(path) {
        path
    } else if base.len() > 0 && base.last() != '/' {
        base + seq!['/'] + path
    } else {
        base + path
    }
}

pub open spec fn root_component() -> Seq<char> {
    seq!['/']
}

pub open spec fn here() -> Seq<char> {
    seq!['.']
}

pub open spec fn up() -> Seq<char> {
    seq!['.', '.']
}

/// Whether a piece between slashes names a step: empty pieces and `.` do not.
pub open spec fn is_step(piece: Seq<char>) -> bool {
    piece.len() > 0 && piece != here()
}

pub open spec fn steps(list: Seq<Seq<char>>) -> Seq<Seq<char>>
    decreases list.len(),
{
    if list.len() == 0 {
        Seq::empty()
    } else if is_step(list.last()) {
        steps(list.drop_last()).push(list.last())
    } else {
        steps(list.drop_last())
    }
}

/// The components of a path: the root of an absolute path, a `.` that a relative
/// path starts with, and then its steps. Repeated slashes, a slash at the end and
/// any other `.` leave no component.
pub open spec fn components(path: Seq<char>) -> Seq<Seq<char>> {
    let list = pieces(path, '/');
    if absolute(path) {
        seq![root_component()] + steps(list)
    } else if list[0] == here() {
        seq![here()] + steps(list)
    } else {
        steps(list)
    }
}

/// Paths are the same when their components are.
pub open spec fn same_place(left: Seq<char>, right: Seq<char>) -> bool {
    components(left) == components(right)
}

/// Whether `path` is `base` or lies below it.
pub open spec fn inside(path: Seq<char>, base: Seq<char>) -> bool {
    components(base).is_prefix_of(components(path))
}

/// The last step of a path, unless that is `..`.
pub open spec fn file_name(path: Seq<char>) -> Option<Seq<char>> {
    let all = components(path);
    if all.len() > 0 && all.last() != root_component() && all.last() != here() && all.last()
        != up() {
        Some(all.last())
    } else {
        None
    }
}

/// The directory that a canonical path lies in: what stands before its last
/// slash. The root has none.
pub open spec fn parent(path: Seq<char>) -> Option<Seq<char>> {
    if path == root_component() || !path.contains('/') {
        None
    } else {
        let end = path.index_of_last('/')->0;
        if end == 0 {
            Some(root_component())
        } else {
            Some(path.take(end))
        }
    }
}

pub fn is_absolute(path: &str) -> (yes: bool)
    ensures
        yes == absolute(path@),
{
    let chars = chars_of(path);
    chars.len() > 0 && chars[0] == '/'
}

pub fn joined(base: &str, path: &str) -> (result: String)
    ensures
        result@ == join(base@, path@),
{
    if is_absolute(path) {
        return path.to_owned();
    }
    let chars = chars_of(base);
    let mut result = base.to_owned();
    if chars.len() > 0 && chars[chars.len() - 1] != '/' {
        result.push('/');
        assert(result@ =~= base@ + seq!['/']);
    }
    result.concat(path)
}

fn is_here(text: &str) -> (yes: bool)
    ensures
        yes == (text@ == here()),
{
    proof {
        reveal_strlit(".");
        assert("."@ =~= here());
    }
    same(text, ".")
}

pub fn components_of(path: &str) -> (list: Vec<String>)
    ensures
        texts(list@) == components(path@),
{
    let parts = split(path, '/');
    let ghost all = pieces(path@, '/');
    assert(parts@.len() == all.len());
    assert(forall|i: int| 0 <= i < all.len() ==> all[i] == #[trigger] parts@[i]@);
    let mut list: Vec<String> = Vec::new();
    assert(texts(list@) =~= Seq::empty());
    proof {
        reveal_strlit("/");
        reveal_strlit(".");
        assert("/"@ =~= root_component());
        assert("."@ =~= here());
    }
    if is_absolute(path) {
        list.push("/".to_owned());
    } else if is_here(parts[0].as_str()) {
        list.push(".".to_owned());
    }
    let ghost front = texts(list@);
    assert(components(path@) =~= front + steps(all));
    let mut at: usize = 0;
    assert(steps(all.take(0)) =~= Seq::empty());
    while at < parts.len()
        invariant
            at <= parts@.len(),
            parts@.len() == all.len(),
            forall|i: int| 0 <= i < all.len() ==> all[i] == #[trigger] parts@[i]@,
            texts(list@) == front + steps(all.take(at as int)),
        decreases parts@.len() - at,
    {
        assert(all.take(at + 1).drop_last() == all.take(at as int));
        assert(all.take(at + 1).last() == parts@[at as int]@);
        if !parts[at].as_str().is_empty() && !is_here(parts[at].as_str()) {
            let piece = parts[at].clone();
            proof {
                lemma_texts_push(list@, piece);
            }
            list.push(piece);
        }
        assert(texts(list@) =~= front + steps(all.take(at + 1)));
        at = at + 1;
    }
    assert(all.take(all.len() as int) == all);
    list
}

/// Whether the first strings of `list` are those of `start`.
fn begins(list: &Vec<String>, start: &Vec<String>) -> (yes: bool)
    ensures
        yes == texts(start@).is_prefix_of(texts(list@)),
{
    if start.len() > list.len() {
        return false;
    }
    let mut at: usize = 0;
    while at < start.len()
        invariant
            at <= start@.len() <= list@.len(),
            forall|i: int| 0 <= i < at ==> list@[i]@ == start@[i]@,
        decreases start@.len() - at,
    {
        if list[at] != start[at] {
            assert(texts(list@).subrange(0, start@.len() as int)[at as int]
                != texts(start@)[at as int]);
            return false;
        }
        at = at + 1;
    }
    assert(texts(start@) =~= texts(list@).subrange(0, start@.len() as int));
    true
}

pub fn is_same_place(left: &str, right: &str) -> (yes: bool)
    ensures
        yes == same_place(left@, right@),
{
    let mine = components_of(left);
    let theirs = components_of(right);
    let result = mine.len() == theirs.len() && begins(&mine, &theirs);
    assert(texts(mine@).len() == mine@.len() && texts(theirs@).len() == theirs@.len());
    assert(texts(mine@).subrange(0, texts(mine@).len() as int) =~= texts(mine@));
    result
}

pub fn is_inside(path: &str, base: &str) -> (yes: bool)
    ensures
        yes == inside(path@, base@),
{
    begins(&components_of(path), &components_of(base))
}

pub fn file_name_of(path: &str) -> (name: Option<String>)
    ensures
        match name {
            Some(name) => file_name(path@) == Some(name@),
            None => file_name(path@) is None,
        },
{
    let list = components_of(path);
    assert(texts(list@).len() == list@.len());
    if list.len() == 0 {
        return None;
    }
    let last = list[list.len() - 1].clone();
    assert(texts(list@).last() == last@);
    proof {
        reveal_strlit("/");
        reveal_strlit("..");
        assert("/"@ =~= root_component());
        assert(".."@ =~= up());
    }
    if same(last.as_str(), "/") || is_here(last.as_str()) || same(last.as_str(), "..") {
        None
    } else {
        Some(last)
    }
}

pub fn parent_of(path: &str) -> (directory: Option<String>)
    ensures
        match directory {
            Some(directory) => parent(path@) == Some(directory@),
            None => parent(path@) is None,
        },
{
    proof {
        reveal_strlit("/");
        assert("/"@ =~= root_component());
    }
    if same(path, "/") || !contains(path, '/') {
        return None;
    }
    let chars = chars_of(path);
    let mut end: usize = chars.len() - 1;
    while chars[end] != '/'
        invariant
            end < chars@.len(),
            chars@ == path@,
            path@.contains('/'),
            forall|i: int| end < i < chars@.len() ==> chars@[i] != '/',
        decreases end,
    {
        assert(end > 0) by {
            let i = choose|i: int| 0 <= i < path@.len() && path@[i] == '/';
            assert(chars@[i] == '/');
        }
        end = end - 1;
    }
    assert(path@.index_of_last('/') == Some(end as int)) by {
        path@.index_of_last_ensures('/');
    }
    if end == 0 {
        Some("/".to_owned())
    } else {
        let directory = text_of(&chars, 0, end);
        assert(directory@ =~= path@.take(end as int));
        Some(directory)
    }
}

} // verus!
