//! Script arguments on the emulator's command line: every `--lua <path>`
//! pair has its path resolved before the emulator is spawned.
use vstd::prelude::*;
use vstd::string::*;
use crate::types::strings_view;

verus! {

/// A character with ASCII upper-case letters folded to lower case.
pub open spec fn ascii_fold(c: char) -> int {
    if 65 <= (c as u32) <= 90 {
        (c as u32) + 32int
    } else {
        c as u32 as int
    }
}

/// The script flag.
pub open spec fn lua_flag() -> Seq<char> {
    seq!['-', '-', 'l', 'u', 'a']
}

/// `arg` is the script flag, ignoring ASCII case.
pub open spec fn is_lua_flag(arg: Seq<char>) -> bool {
    arg.len() == lua_flag().len() && forall|i: int|
        0 <= i < arg.len() ==> ascii_fold(#[trigger] arg[i]) == ascii_fold(lua_flag()[i])
}

/// Positions, from `i` on, of the paths that follow a script flag. The
/// scan skips over each flag's path, so a path is never read as a flag; a
/// flag in last place has no path.
pub open spec fn lua_positions_from(args: Seq<Seq<char>>, i: int) -> Seq<int>
    decreases args.len() - i,
{
    if i < 0 || i >= args.len() {
        seq![]
    } else if is_lua_flag(args[i]) {
        if i + 1 < args.len() {
            seq![i + 1] + lua_positions_from(args, i + 2)
        } else {
            seq![]
        }
    } else {
        lua_positions_from(args, i + 1)
    }
}

/// Positions of the paths that follow a script flag.
pub open spec fn lua_positions(args: Seq<Seq<char>>) -> Seq<int> {
    lua_positions_from(args, 0)
}

/// A path with each backslash turned into a forward slash.
pub open spec fn forward_slashes(path: Seq<char>) -> Seq<char> {
    path.map_values(|c: char| if c == '\\' { '/' } else { c })
}

/// The positions from `i` on lie in `[i, len)` and increase strictly.
pub proof fn lemma_lua_positions_increase(args: Seq<Seq<char>>, i: int)
    requires
        0 <= i,
    ensures
        forall|a: int|
            0 <= a < lua_positions_from(args, i).len() ==> i <= #[trigger] lua_positions_from(
                args,
                i,
            )[a] < args.len(),
        forall|a: int, b: int|
            0 <= a < b < lua_positions_from(args, i).len() ==> lua_positions_from(args, i)[a]
                < lua_positions_from(args, i)[b],
    decreases args.len() - i,
{
    let whole = lua_positions_from(args, i);
    if i < args.len() {
        if is_lua_flag(args[i]) {
            if i + 1 < args.len() {
                lemma_lua_positions_increase(args, i + 2);
                let rest = lua_positions_from(args, i + 2);
                assert(whole == seq![i + 1] + rest);
                assert forall|a: int| 0 <= a < whole.len() implies i <= #[trigger] whole[a] < args.len() by {
                    if a > 0 {
                        assert(whole[a] == rest[a - 1]);
                    }
                }
                assert forall|a: int, b: int| 0 <= a < b < whole.len() implies whole[a] < whole[b] by {
                    assert(whole[b] == rest[b - 1]);
                    if a > 0 {
                        assert(whole[a] == rest[a - 1]);
                    }
                }
            } else {
                assert(whole.len() == 0);
            }
        } else {
            lemma_lua_positions_increase(args, i + 1);
            assert(whole == lua_positions_from(args, i + 1));
        }
    } else {
        assert(whole.len() == 0);
    }
}

fn fold_char(c: char) -> (r: u32)
    ensures
        r as int == ascii_fold(c),
{
    let v = c as u32;
    if 65 <= v && v <= 90 {
        v + 32
    } else {
        v
    }
}

fn flag_char(i: usize) -> (r: char)
    requires
        i < 5,
    ensures
        r == lua_flag()[i as int],
{
    if i < 2 {
        '-'
    } else if i == 2 {
        'l'
    } else if i == 3 {
        'u'
    } else {
        'a'
    }
}

/// Whether `arg` is the script flag, ignoring ASCII case.
pub fn is_lua_flag_arg(arg: &String) -> (r: bool)
    ensures
        r == is_lua_flag(arg@),
{
    let s = arg.as_str();
    if s.unicode_len() != 5 {
        return false;
    }
    let mut i: usize = 0;
    while i < 5
        invariant
            s@ == arg@,
            s@.len() == 5,
            i <= 5,
            forall|k: int| 0 <= k < i ==> ascii_fold(#[trigger] s@[k]) == ascii_fold(lua_flag()[k]),
        decreases 5 - i,
    {
        if fold_char(s.get_char(i)) != fold_char(flag_char(i)) {
            return false;
        }
        i = i + 1;
    }
    true
}

/// The positions of the arguments that are script paths.
pub fn lua_arg_positions(args: &Vec<String>) -> (r: Vec<usize>)
    ensures
        r@.map_values(|k: usize| k as int) == lua_positions(strings_view(args@)),
{
    let ghost view = strings_view(args@);
    let mut r: Vec<usize> = Vec::new();
    let mut idx: usize = 0;
    while idx < args.len()
        invariant
            view == strings_view(args@),
            idx <= args@.len(),
            r@.map_values(|k: usize| k as int) + lua_positions_from(view, idx as int)
                == lua_positions(view),
        decreases args@.len() - idx,
    {
        let ghost before = r@.map_values(|k: usize| k as int);
        if is_lua_flag_arg(&args[idx]) {
            if idx + 1 < args.len() {
                r.push(idx + 1);
                assert(r@.map_values(|k: usize| k as int) =~= before + seq![idx + 1]);
                assert(before + seq![idx + 1] + lua_positions_from(view, idx + 2)
                    =~= before + (seq![idx + 1] + lua_positions_from(view, idx + 2)));
                idx = idx + 2;
            } else {
                assert(before + lua_positions_from(view, idx as int) =~= before);
                assert(lua_positions_from(view, idx + 1) =~= Seq::<int>::empty());
                idx = idx + 1;
            }
        } else {
            idx = idx + 1;
        }
    }
    assert(r@.map_values(|k: usize| k as int) + Seq::<int>::empty() =~= r@.map_values(|k: usize| k as int));
    r
}

/// Relies on str::replace: every backslash becomes a forward slash, and
/// nothing else changes.
#[verifier::external_body]
fn slashes_forward(path: &str) -> (r: String)
    ensures
        r@ == forward_slashes(path@),
{
    path.replace('\\', "/")
}

/// Puts resolved script paths in place: the `j`-th path after a script flag
/// becomes `resolved[j]`, written with forward slashes. Every other argument
/// stays as it was.
pub fn resolve_lua_args(args: &mut Vec<String>, resolved: &Vec<String>)
    requires
        resolved@.len() == lua_positions(strings_view(old(args)@)).len(),
    ensures
        final(args)@.len() == old(args)@.len(),
        forall|j: int|
            0 <= j < resolved@.len() ==> #[trigger] final(args)@[lua_positions(
                strings_view(old(args)@),
            )[j]]@ == forward_slashes(resolved@[j]@),
        forall|i: int|
            0 <= i < old(args)@.len() && !lua_positions(strings_view(old(args)@)).contains(i)
                ==> #[trigger] final(args)@[i] == old(args)@[i],
{
    let ghost pos = lua_positions(strings_view(args@));
    let ghost original = args@;
    proof {
        lemma_lua_positions_increase(strings_view(args@), 0);
    }
    let positions = lua_arg_positions(args);
    assert(positions@.len() == pos.len());
    assert(forall|j: int| 0 <= j < pos.len() ==> #[trigger] pos[j] == positions@[j] as int) by {
        assert forall|j: int| 0 <= j < pos.len() implies #[trigger] pos[j] == positions@[j] as int by {
            assert(positions@.map_values(|k: usize| k as int)[j] == positions@[j] as int);
        }
    }
    let mut j: usize = 0;
    while j < positions.len()
        invariant
            j <= positions@.len(),
            positions@.len() == pos.len(),
            resolved@.len() == pos.len(),
            args@.len() == original.len(),
            forall|a: int| 0 <= a < pos.len() ==> #[trigger] pos[a] == positions@[a] as int,
            forall|a: int| 0 <= a < pos.len() ==> 0 <= #[trigger] pos[a] < original.len(),
            forall|a: int, b: int| 0 <= a < b < pos.len() ==> pos[a] < pos[b],
            forall|a: int| 0 <= a < j ==> #[trigger] args@[pos[a]]@ == forward_slashes(resolved@[a]@),
            forall|i: int|
                0 <= i < original.len() && (forall|a: int| 0 <= a < j ==> pos[a] != i)
                    ==> #[trigger] args@[i] == original[i],
        decreases positions@.len() - j,
    {
        let k = positions[j];
        assert(pos[j as int] == k as int);
        let fixed = slashes_forward(resolved[j].as_str());
        args.set(k, fixed);
        proof {
            assert forall|a: int| 0 <= a < j + 1 implies #[trigger] args@[pos[a]]@ == forward_slashes(resolved@[a]@) by {
                if a < j {
                    assert(pos[a] < pos[j as int]);
                }
            }
        }
        j = j + 1;
    }
    proof {
        assert forall|i: int|
            0 <= i < original.len() && !pos.contains(i) implies #[trigger] args@[i] == original[i] by {
            assert forall|a: int| 0 <= a < j implies pos[a] != i by {
                if pos[a] == i {
                    assert(pos.contains(i));
                }
            }
        }
    }
}

} // verus!
