use vstd::prelude::*;

verus! {

/// `path` with the component `part` added: an absolute component replaces
/// the path, another one is joined to it with `/`.
pub open spec fn path_push(path: Seq<char>, part: Seq<char>) -> Seq<char> {
    if part.len() > 0 && part[0] == '/' {
        part
    } else if path.len() == 0 || path.last() == '/' {
        path + part
    } else {
        path + seq!['/'] + part
    }
}

/// `path` with each of `parts` added in turn.
pub open spec fn path_push_all(path: Seq<char>, parts: Seq<&str>) -> Seq<char>
    decreases parts.len(),
{
    if parts.len() == 0 {
        path
    } else {
        path_push(path_push_all(path, parts.drop_last()), parts.last()@)
    }
}

fn push(p: &mut String, part: &str)
    ensures
        final(p)@ == path_push(old(p)@, part@),
{
    proof {
        reveal_strlit("/");
    }
    let starts_absolute = part.unicode_len() > 0 && part.get_char(0) == '/';
    if starts_absolute {
        *p = String::from_str(part);
        return;
    }
    let n = p.as_str().unicode_len();
    if n == 0 || p.as_str().get_char(n - 1) == '/' {
        p.append(part);
    } else {
        p.append("/");
        p.append(part);
    }
}

/// Adds each of `sub_paths` to `p` in turn.
pub fn push_all(p: &mut String, sub_paths: &[&str])
    ensures
        final(p)@ == path_push_all(old(p)@, sub_paths@),
{
    let ghost start = p@;
    let mut i: usize = 0;
    while i < sub_paths.len()
        invariant
            i <= sub_paths@.len(),
            p@ == path_push_all(start, sub_paths@.subrange(0, i as int)),
        decreases sub_paths@.len() - i,
    {
        assert(sub_paths@.subrange(0, i + 1).drop_last() =~= sub_paths@.subrange(0, i as int));
        push(p, sub_paths[i]);
        i = i + 1;
    }
    assert(sub_paths@.subrange(0, sub_paths@.len() as int) =~= sub_paths@);
}

/// The path `base` with each of `sub_paths` added in turn.
pub fn get_path(base: &str, sub_paths: &[&str]) -> (r: String)
    ensures
        r@ == path_push_all(base@, sub_paths@),
{
    let mut p = String::from_str(base);
    push_all(&mut p, sub_paths);
    p
}

} // verus!
