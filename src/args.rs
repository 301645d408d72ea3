use vstd::prelude::*;

verus! {

/// A floating-point type to benchmark.
#[derive(Clone, Copy, Debug, PartialEq, Eq, Structural)]
pub enum Type {
    F32,
    F64,
}

/// Position of the first `:` in `s` at or after `i`, or `s.len()` if there is none.
pub open spec fn colon_from(s: Seq<u8>, i: int) -> int
    decreases s.len() - i,
{
    if i >= s.len() {
        s.len() as int
    } else if s[i] == 58u8 {
        i
    } else {
        colon_from(s, i + 1)
    }
}

/// The benchmark entries that a type suffix selects for implementation `i`: both types
/// without a suffix, one type for `f32` or `f64`, and none for anything else.
pub open spec fn suffix_entries(i: int, suffix: Option<Seq<u8>>) -> Option<Seq<(usize, Type)>> {
    match suffix {
        None => Some(seq![(i as usize, Type::F32), (i as usize, Type::F64)]),
        Some(t) => if t == seq![102u8, 51u8, 50u8] {
            Some(seq![(i as usize, Type::F32)])
        } else if t == seq![102u8, 54u8, 52u8] {
            Some(seq![(i as usize, Type::F64)])
        } else {
            None
        },
    }
}

/// The entries of the first implementation from `i` on that is named `lib` and accepts
/// `suffix`, or `None` if there is no such implementation.
pub open spec fn match_from(
    names: Seq<Seq<u8>>,
    lib: Seq<u8>,
    suffix: Option<Seq<u8>>,
    i: int,
) -> Option<Seq<(usize, Type)>>
    decreases names.len() - i,
{
    if i < 0 || i >= names.len() {
        None
    } else if names[i] == lib && suffix_entries(i, suffix) is Some {
        suffix_entries(i, suffix)
    } else {
        match_from(names, lib, suffix, i + 1)
    }
}

/// The entries that one argument `lib[:type]` selects.
pub open spec fn arg_entries(names: Seq<Seq<u8>>, arg: Seq<u8>) -> Option<Seq<(usize, Type)>> {
    let c = colon_from(arg, 0);
    if c < arg.len() {
        match_from(names, arg.subrange(0, c), Some(arg.subrange(c + 1, arg.len() as int)), 0)
    } else {
        match_from(names, arg, None, 0)
    }
}

/// The entries of the first `k` arguments, or the index of the first unsupported one.
pub open spec fn parse_prefix(names: Seq<Seq<u8>>, args: Seq<Seq<u8>>, k: int) -> Result<
    Seq<(usize, Type)>,
    usize,
>
    decreases k,
{
    if k <= 0 {
        Ok(Seq::empty())
    } else {
        match parse_prefix(names, args, k - 1) {
            Err(e) => Err(e),
            Ok(v) => match arg_entries(names, args[k - 1]) {
                None => Err((k - 1) as usize),
                Some(es) => Ok(v + es),
            },
        }
    }
}

/// Every implementation with both types, in order.
pub open spec fn all_entries(n: int) -> Seq<(usize, Type)>
    decreases n,
{
    if n <= 0 {
        Seq::empty()
    } else {
        all_entries(n - 1) + seq![((n - 1) as usize, Type::F32), ((n - 1) as usize, Type::F64)]
    }
}

/// What `parse` returns.
pub open spec fn parse_spec(names: Seq<Seq<u8>>, args: Seq<Seq<u8>>) -> Result<
    Seq<(usize, Type)>,
    usize,
> {
    match parse_prefix(names, args, args.len() as int) {
        Err(e) => Err(e),
        Ok(v) => if v.len() == 0 {
            Ok(all_entries(names.len() as int))
        } else {
            Ok(v)
        },
    }
}

/// Returns the position of the first `:` in `arg`, or its length if there is none.
fn find_colon(arg: &Vec<u8>) -> (r: usize)
    ensures
        r as int == colon_from(arg@, 0),
        r <= arg@.len(),
{
    let mut i: usize = 0;
    while i < arg.len()
        invariant
            i <= arg@.len(),
            colon_from(arg@, 0) == colon_from(arg@, i as int),
        decreases arg@.len() - i,
    {
        if arg[i] == 58 {
            return i;
        }
        i += 1;
    }
    i
}

/// Returns whether `arg[lo..hi]` equals `name`.
fn range_eq(arg: &Vec<u8>, lo: usize, hi: usize, name: &Vec<u8>) -> (r: bool)
    requires
        lo <= hi <= arg@.len(),
    ensures
        r == (arg@.subrange(lo as int, hi as int) == name@),
{
    if hi - lo != name.len() {
        assert(arg@.subrange(lo as int, hi as int).len() != name@.len());
        return false;
    }
    let mut i: usize = 0;
    while i < name.len()
        invariant
            hi - lo == name@.len(),
            lo <= hi <= arg@.len(),
            i <= name@.len(),
            forall|j: int| 0 <= j < i ==> arg@[lo + j] == #[trigger] name@[j],
        decreases name@.len() - i,
    {
        if arg[lo + i] != name[i] {
            assert(arg@.subrange(lo as int, hi as int)[i as int] != name@[i as int]);
            return false;
        }
        i += 1;
    }
    assert(arg@.subrange(lo as int, hi as int) =~= name@);
    true
}

/// Appends to `out` the entries that the argument `arg` selects, and returns whether some
/// implementation accepted it.
fn push_arg(names: &Vec<Vec<u8>>, arg: &Vec<u8>, out: &mut Vec<(usize, Type)>) -> (found: bool)
    ensures
        found == arg_entries(names.deep_view(), arg@) is Some,
        found ==> final(out)@ == old(out)@ + arg_entries(names.deep_view(), arg@)->0,
        !found ==> final(out)@ == old(out)@,
{
    let ghost nv = names.deep_view();
    let c = find_colon(arg);
    let has_suffix = c < arg.len();
    let ghost lib = if has_suffix { arg@.subrange(0, c as int) } else { arg@ };
    let ghost suffix: Option<Seq<u8>> = if has_suffix {
        Some(arg@.subrange(c + 1, arg@.len() as int))
    } else {
        None
    };
    let lib_end = c;
    assert(lib == arg@.subrange(0, lib_end as int)) by {
        if !has_suffix {
            assert(arg@ =~= arg@.subrange(0, arg@.len() as int));
        }
    }
    // The suffix: 0 for none, 1 for f32, 2 for f64, 3 for anything else.
    let ghost f32s = seq![102u8, 51u8, 50u8];
    let ghost f64s = seq![102u8, 54u8, 52u8];
    assert(f32s[1] != f64s[1]);
    assert(f32s.len() == 3 && f64s.len() == 3);
    let kind: u8 = if !has_suffix {
        0
    } else if arg.len() - c == 4 && arg[c + 1] == 102 && arg[c + 2] == 51 && arg[c + 3] == 50 {
        assert(arg@.subrange(c + 1, arg@.len() as int) =~= f32s);
        1
    } else if arg.len() - c == 4 && arg[c + 1] == 102 && arg[c + 2] == 54 && arg[c + 3] == 52 {
        assert(arg@.subrange(c + 1, arg@.len() as int) =~= f64s);
        2
    } else {
        proof {
            let t = arg@.subrange(c + 1, arg@.len() as int);
            if t == f32s {
                assert(t[0] == 102u8 && t[1] == 51u8 && t[2] == 50u8);
            }
            if t == f64s {
                assert(t[0] == 102u8 && t[1] == 54u8 && t[2] == 52u8);
            }
        }
        3
    };
    assert(kind == 0 <==> suffix is None);
    assert(kind == 1 <==> suffix == Some(f32s));
    assert(kind == 2 <==> suffix == Some(f64s));
    assert(arg_entries(nv, arg@) == match_from(nv, lib, suffix, 0));
    let mut i: usize = 0;
    while i < names.len()
        invariant
            nv == names.deep_view(),
            nv.len() == names@.len(),
            i <= names@.len(),
            match_from(nv, lib, suffix, 0) == match_from(nv, lib, suffix, i as int),
            arg_entries(nv, arg@) == match_from(nv, lib, suffix, 0),
            lib == arg@.subrange(0, lib_end as int),
            lib_end <= arg@.len(),
            kind == 0 <==> suffix is None,
            f32s == seq![102u8, 51u8, 50u8],
            f64s == seq![102u8, 54u8, 52u8],
            kind == 1 <==> suffix == Some(f32s),
            kind == 2 <==> suffix == Some(f64s),
            kind <= 3,
            out@ == old(out)@,
        decreases names@.len() - i,
    {
        if range_eq(arg, 0, lib_end, &names[i]) && kind != 3 {
            assert(nv[i as int] == names@[i as int]@);
            if kind != 2 {
                out.push((i, Type::F32));
            }
            if kind != 1 {
                out.push((i, Type::F64));
            }
            proof {
                assert(nv[i as int] == lib);
                assert(suffix_entries(i as int, suffix) is Some);
                let es = suffix_entries(i as int, suffix)->0;
                assert(match_from(nv, lib, suffix, i as int) == Some(es));
                assert(out@ =~= old(out)@ + es);
            }
            return true;
        }
        proof {
            assert(nv[i as int] == names@[i as int]@);
        }
        i += 1;
    }
    false
}

/// Decides which benchmarks to run from the command-line arguments `args` (without the
/// program name) and the names of the implementations. An argument `lib` selects both types
/// of the first implementation named `lib`, and `lib:f32` or `lib:f64` one type of it. With
/// no arguments every implementation runs with both types. Returns the index of the first
/// argument that selects nothing as the error.
pub fn parse(names: &Vec<Vec<u8>>, args: &Vec<Vec<u8>>) -> (r: Result<Vec<(usize, Type)>, usize>)
    ensures
        match r {
            Ok(v) => parse_spec(names.deep_view(), args.deep_view()) == Ok::<
                Seq<(usize, Type)>,
                usize,
            >(v@),
            Err(e) => parse_spec(names.deep_view(), args.deep_view()) == Err::<
                Seq<(usize, Type)>,
                usize,
            >(e),
        },
{
    let ghost nv = names.deep_view();
    let ghost av = args.deep_view();
    let mut benchmark: Vec<(usize, Type)> = Vec::new();
    let mut k: usize = 0;
    while k < args.len()
        invariant
            nv == names.deep_view(),
            av == args.deep_view(),
            av.len() == args@.len(),
            k <= args@.len(),
            parse_prefix(nv, av, k as int) == Ok::<Seq<(usize, Type)>, usize>(benchmark@),
        decreases args@.len() - k,
    {
        assert(av[k as int] == args@[k as int]@);
        if !push_arg(names, &args[k], &mut benchmark) {
            proof {
                assert(parse_prefix(nv, av, k + 1) == Err::<Seq<(usize, Type)>, usize>(k));
                lemma_prefix_err_stays(nv, av, k as int + 1, k);
            }
            return Err(k);
        }
        k += 1;
    }
    assert(av.len() == k);
    if benchmark.len() == 0 {
        let mut i: usize = 0;
        while i < names.len()
            invariant
                nv == names.deep_view(),
                nv.len() == names@.len(),
                i <= names@.len(),
                benchmark@ == all_entries(i as int),
            decreases names@.len() - i,
        {
            benchmark.push((i, Type::F32));
            benchmark.push((i, Type::F64));
            i += 1;
            assert(benchmark@ =~= all_entries(i as int));
        }
    }
    Ok(benchmark)
}

/// Once an argument is refused, the later ones do not change the error.
proof fn lemma_prefix_err_stays(names: Seq<Seq<u8>>, args: Seq<Seq<u8>>, k: int, e: usize)
    requires
        0 <= k <= args.len(),
        parse_prefix(names, args, k) == Err::<Seq<(usize, Type)>, usize>(e),
    ensures
        parse_prefix(names, args, args.len() as int) == Err::<Seq<(usize, Type)>, usize>(e),
    decreases args.len() - k,
{
    if k < args.len() {
        lemma_prefix_err_stays(names, args, k + 1, e);
    }
}

} // verus!
