//! Lexical canonical form of a path: empty and `.` components dropped, each
//! `..` taking back the component before it, and no trailing `/`.

use vstd::prelude::*;
use crate::text::{to_chars, from_chars};

verus! {

/// The views of a stack of components.
pub open spec fn view_components(v: Seq<Vec<char>>) -> Seq<Seq<char>> {
    v.map_values(|c: Vec<char>| c@)
}

/// The stack after the component `comp` ends: empty and `.` components leave
/// it, `..` removes the last component (at the root of an absolute path there
/// is none to remove; a relative path keeps a leading `..`), any other
/// component is added.
pub open spec fn push_component(stack: Seq<Seq<char>>, comp: Seq<char>, absolute: bool) -> Seq<
    Seq<char>,
> {
    if comp.len() == 0 || comp == seq!['.'] {
        stack
    } else if comp == seq!['.', '.'] {
        if stack.len() > 0 && stack.last() != seq!['.', '.'] {
            stack.drop_last()
        } else if absolute {
            stack
        } else {
            stack.push(comp)
        }
    } else {
        stack.push(comp)
    }
}

/// The stack of finished components and the component being read, after the
/// characters of `s`.
pub open spec fn scan_path(s: Seq<char>, absolute: bool) -> (Seq<Seq<char>>, Seq<char>)
    decreases s.len(),
{
    if s.len() == 0 {
        (seq![], seq![])
    } else {
        let (stack, cur) = scan_path(s.drop_last(), absolute);
        if s.last() == '/' {
            (push_component(stack, cur, absolute), seq![])
        } else {
            (stack, cur.push(s.last()))
        }
    }
}

/// The components joined with `/`.
pub open spec fn join_components(comps: Seq<Seq<char>>) -> Seq<char>
    decreases comps.len(),
{
    if comps.len() == 0 {
        seq![]
    } else if comps.len() == 1 {
        comps[0]
    } else {
        join_components(comps.drop_last()) + seq!['/'] + comps.last()
    }
}

/// The path starts at the root.
pub open spec fn is_absolute(s: Seq<char>) -> bool {
    s.len() > 0 && s[0] == '/'
}

/// The canonical form of a path.
pub open spec fn normalize(s: Seq<char>) -> Seq<char> {
    let absolute = is_absolute(s);
    let (stack, cur) = scan_path(s, absolute);
    let comps = push_component(stack, cur, absolute);
    if absolute {
        seq!['/'] + join_components(comps)
    } else {
        join_components(comps)
    }
}

fn is_dot(c: &Vec<char>) -> (r: bool)
    ensures
        r == (c@ == seq!['.']),
{
    if c.len() == 1 && c[0] == '.' {
        assert(c@ =~= seq!['.']);
        true
    } else {
        false
    }
}

fn is_dot_dot(c: &Vec<char>) -> (r: bool)
    ensures
        r == (c@ == seq!['.', '.']),
{
    if c.len() == 2 && c[0] == '.' && c[1] == '.' {
        assert(c@ =~= seq!['.', '.']);
        true
    } else {
        false
    }
}

/// Ends the component `comp` on `stack`, as `push_component` says.
fn end_component(stack: &mut Vec<Vec<char>>, comp: Vec<char>, absolute: bool)
    ensures
        view_components(final(stack)@) == push_component(
            view_components(old(stack)@),
            comp@,
            absolute,
        ),
{
    let ghost before = view_components(stack@);
    if comp.len() == 0 || is_dot(&comp) {
    } else if is_dot_dot(&comp) {
        let n = stack.len();
        if n > 0 && !is_dot_dot(&stack[n - 1]) {
            assert(before.last() == stack@[n - 1]@);
            stack.pop();
            assert(view_components(stack@) =~= before.drop_last());
        } else if absolute {
            if n > 0 {
                assert(before.last() == stack@[n - 1]@);
            }
        } else {
            if n > 0 {
                assert(before.last() == stack@[n - 1]@);
            }
            stack.push(comp);
            assert(view_components(stack@) =~= before.push(comp@));
        }
    } else {
        stack.push(comp);
        assert(view_components(stack@) =~= before.push(comp@));
    }
}

/// The canonical form of `path`, as `normalize` says.
pub fn normalize_path(path: &str) -> (r: String)
    ensures
        r@ == normalize(path@),
{
    let chars = to_chars(path);
    let n = chars.len();
    let absolute = n > 0 && chars[0] == '/';
    let mut stack: Vec<Vec<char>> = Vec::new();
    let mut cur: Vec<char> = Vec::new();
    let mut i: usize = 0;
    while i < n
        invariant
            n == chars@.len(),
            chars@ == path@,
            absolute == is_absolute(path@),
            i <= n,
            scan_path(path@.subrange(0, i as int), absolute) == (view_components(stack@), cur@),
        decreases n - i,
    {
        let c = chars[i];
        let ghost t = path@.subrange(0, i + 1);
        assert(t.drop_last() =~= path@.subrange(0, i as int));
        assert(t.last() == c);
        if c == '/' {
            let comp = cur;
            cur = Vec::new();
            end_component(&mut stack, comp, absolute);
        } else {
            cur.push(c);
        }
        i = i + 1;
    }
    assert(path@.subrange(0, n as int) =~= path@);
    end_component(&mut stack, cur, absolute);
    let mut out: Vec<char> = Vec::new();
    if absolute {
        out.push('/');
    }
    let ghost start = out@;
    let mut k: usize = 0;
    while k < stack.len()
        invariant
            k <= stack@.len(),
            out@ == start + join_components(view_components(stack@).take(k as int)),
        decreases stack@.len() - k,
    {
        let ghost comps = view_components(stack@);
        let ghost before = out@;
        if k > 0 {
            out.push('/');
        }
        let comp = &stack[k];
        let mut j: usize = 0;
        while j < comp.len()
            invariant
                j <= comp@.len(),
                out@ == before + (if k > 0 { seq!['/'] } else { seq![] }) + comp@.subrange(
                    0,
                    j as int,
                ),
            decreases comp@.len() - j,
        {
            out.push(comp[j]);
            j = j + 1;
            assert(out@ =~= before + (if k > 0 { seq!['/'] } else { seq![] }) + comp@.subrange(
                0,
                j as int,
            ));
        }
        assert(comp@.subrange(0, comp@.len() as int) =~= comp@);
        assert(comps.take(k + 1).drop_last() =~= comps.take(k as int));
        assert(comps[k as int] == comp@);
        if k == 0 {
            assert(join_components(comps.take(1)) == comps.take(1)[0]);
            assert(comps.take(k as int) =~= seq![]);
        }
        k = k + 1;
        assert(out@ =~= start + join_components(view_components(stack@).take(k as int)));
    }
    assert(view_components(stack@).take(stack@.len() as int) =~= view_components(stack@));
    assert(out@ =~= normalize(path@));
    from_chars(&out)
}

} // verus!
