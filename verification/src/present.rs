//! Presenting the joined listing: the sort selector, the in-place sort,
//! and the display rows.
//!
//! The listing is sorted by one of three keys — display name, runtime
//! identifier (both in natural string order) or code size (numeric
//! ascending) — and each joined function becomes one tab-separated row of
//! name, runtime and human-readable size. Column alignment and writing are
//! I/O and live with the caller.

use vstd::prelude::*;

use crate::model::Func;
use crate::model::FuncV;
use crate::model::human_size_of;
use crate::model::opt_key;
use crate::strorder::lemma_lex_lt_transitive;
use crate::strorder::lemma_lex_lt_trichotomy;
use crate::strorder::lex_le;
use crate::strorder::lex_lt;
use crate::strorder::str_eq;
use crate::strorder::str_le;

verus! {

/// The sort key selector for the listing.
#[derive(Clone, Copy, Debug, PartialEq, Eq)]
pub enum Sort {
    Name,
    Runtime,
    CodeSize,
}

impl Sort {
    /// The accepted spellings, in the order offered on the command line.
    pub fn variants() -> (r: [&'static str; 3])
        ensures
            r@.len() == 3,
            r@[0]@ == "name"@,
            r@[1]@ == "runtime"@,
            r@[2]@ == "codesize"@,
    {
        ["name", "runtime", "codesize"]
    }

    /// The spelling of this selector.
    pub open spec fn spec_label(self) -> Seq<char> {
        match self {
            Sort::Name => "name"@,
            Sort::Runtime => "runtime"@,
            Sort::CodeSize => "codesize"@,
        }
    }

    pub fn label(&self) -> (r: &'static str)
        ensures
            r@ == self.spec_label(),
    {
        match self {
            Sort::Name => "name",
            Sort::Runtime => "runtime",
            Sort::CodeSize => "codesize",
        }
    }

    /// Parses a selector spelling; any other string is refused.
    pub fn from_str(s: &str) -> (r: Result<Sort, &'static str>)
        ensures
            s@ == "name"@ ==> r == Result::<Sort, &'static str>::Ok(Sort::Name),
            s@ == "runtime"@ ==> r == Result::<Sort, &'static str>::Ok(Sort::Runtime),
            s@ == "codesize"@ ==> r == Result::<Sort, &'static str>::Ok(Sort::CodeSize),
            (s@ != "name"@ && s@ != "runtime"@ && s@ != "codesize"@) ==> r is Err
                && r->Err_0@ == "no match"@,
    {
        proof {
            reveal_strlit("name");
            reveal_strlit("runtime");
            reveal_strlit("codesize");
            assert("name"@.len() == 4);
            assert("runtime"@.len() == 7);
            assert("codesize"@.len() == 8);
        }
        if str_eq(s, "name") {
            Result::Ok(Sort::Name)
        } else if str_eq(s, "runtime") {
            Result::Ok(Sort::Runtime)
        } else if str_eq(s, "codesize") {
            Result::Ok(Sort::CodeSize)
        } else {
            Result::Err("no match")
        }
    }
}

/// The presenter's order under a selector: by name, by runtime (both in
/// natural string order) or by code size (numeric ascending), an absent
/// name or runtime reading as empty and an absent size as zero.
pub open spec fn sort_le(sort: Sort, a: FuncV, b: FuncV) -> bool {
    match sort {
        Sort::Name => lex_le(a.name_key(), b.name_key()),
        Sort::Runtime => lex_le(a.runtime_key(), b.runtime_key()),
        Sort::CodeSize => a.size_or_zero() <= b.size_or_zero(),
    }
}

/// Any two joined functions are comparable under any selector.
pub proof fn lemma_sort_le_total(sort: Sort, a: FuncV, b: FuncV)
    ensures
        sort_le(sort, a, b) || sort_le(sort, b, a),
{
    match sort {
        Sort::Name => lemma_lex_lt_trichotomy(a.name_key(), b.name_key()),
        Sort::Runtime => lemma_lex_lt_trichotomy(a.runtime_key(), b.runtime_key()),
        Sort::CodeSize => {},
    }
}

/// The selector's order is transitive.
pub proof fn lemma_sort_le_transitive(sort: Sort, a: FuncV, b: FuncV, c: FuncV)
    requires
        sort_le(sort, a, b),
        sort_le(sort, b, c),
    ensures
        sort_le(sort, a, c),
{
    match sort {
        Sort::Name => {
            if lex_lt(a.name_key(), b.name_key()) && lex_lt(b.name_key(), c.name_key()) {
                lemma_lex_lt_transitive(a.name_key(), b.name_key(), c.name_key());
            }
        },
        Sort::Runtime => {
            if lex_lt(a.runtime_key(), b.runtime_key()) && lex_lt(b.runtime_key(), c.runtime_key()) {
                lemma_lex_lt_transitive(a.runtime_key(), b.runtime_key(), c.runtime_key());
            }
        },
        Sort::CodeSize => {},
    }
}

/// Sorting by code size compares exactly the recorded sizes, numerically
/// ascending, an absent size reading as the minimum recorded for an
/// untagged field, zero; any two functions are comparable under it.
pub proof fn lemma_codesize_order(a: FuncV, b: FuncV)
    ensures
        sort_le(Sort::CodeSize, a, b) <==> a.size_or_zero() <= b.size_or_zero(),
        sort_le(Sort::CodeSize, a, b) || sort_le(Sort::CodeSize, b, a),
{
}

/// Whether `a` comes no later than `b` under the selector's order, an
/// absent string field reading as empty.
fn opt_str_le(a: &Option<String>, b: &Option<String>) -> (r: bool)
    ensures
        r == lex_le(opt_key(a.deep_view()), opt_key(b.deep_view())),
{
    proof {
        reveal_strlit("");
        assert(""@ =~= Seq::<char>::empty());
    }
    let sa: &str = match a {
        Option::Some(s) => s.as_str(),
        Option::None => "",
    };
    let sb: &str = match b {
        Option::Some(s) => s.as_str(),
        Option::None => "",
    };
    str_le(sa, sb)
}

/// The executable comparator for one selector.
fn func_le(a: &Func, b: &Func, sort: Sort) -> (r: bool)
    ensures
        r == sort_le(sort, a.deep_view(), b.deep_view()),
{
    match sort {
        Sort::Name => opt_str_le(&a.config.function_name, &b.config.function_name),
        Sort::Runtime => opt_str_le(&a.config.runtime, &b.config.runtime),
        Sort::CodeSize => {
            let x = match a.config.code_size {
                Option::Some(s) => s,
                Option::None => 0,
            };
            let y = match b.config.code_size {
                Option::Some(s) => s,
                Option::None => 0,
            };
            x <= y
        },
    }
}

/// Sorts the joined listing in place by the selected key: the result is a
/// permutation of the input, ascending under the selector's order; ties
/// may land in either order.
pub fn sort_funcs(funcs: &mut Vec<Func>, sort: Sort)
    ensures
        final(funcs)@.to_multiset() == old(funcs)@.to_multiset(),
        forall|x: int, y: int|
            0 <= x < y < final(funcs)@.len() ==> sort_le(
                sort,
                final(funcs)@[x].deep_view(),
                final(funcs)@[y].deep_view(),
            ),
{
    broadcast use vstd::seq_lib::group_to_multiset_ensures;

    let ghost orig = funcs@;
    let mut out: Vec<Func> = Vec::new();
    proof {
        assert(out@.to_multiset().add(funcs@.to_multiset()) =~= orig.to_multiset());
    }
    #[verifier::loop_isolation(false)]
    while funcs.len() > 0
        invariant
            out@.to_multiset().add(funcs@.to_multiset()) == orig.to_multiset(),
            forall|x: int, y: int|
                0 <= x < y < out@.len() ==> sort_le(sort, out@[x].deep_view(), out@[y].deep_view()),
            forall|x: int, e: int|
                0 <= x < out@.len() && 0 <= e < funcs@.len() ==> sort_le(
                    sort,
                    out@[x].deep_view(),
                    funcs@[e].deep_view(),
                ),
        decreases funcs@.len(),
    {
        let mut m: usize = 0;
        let mut k: usize = 1;
        #[verifier::loop_isolation(false)]
        while k < funcs.len()
            invariant
                m < k,
                k <= funcs@.len(),
                m < funcs@.len(),
                forall|j: int|
                    0 <= j < k ==> sort_le(sort, funcs@[m as int].deep_view(), funcs@[j].deep_view()),
            decreases funcs@.len() - k,
        {
            if !func_le(&funcs[m], &funcs[k], sort) {
                proof {
                    lemma_sort_le_total(sort, funcs@[m as int].deep_view(), funcs@[k as int].deep_view());
                    assert forall|j: int| 0 <= j < k + 1 implies sort_le(
                        sort,
                        funcs@[k as int].deep_view(),
                        funcs@[j].deep_view(),
                    ) by {
                        if j < k {
                            lemma_sort_le_transitive(
                                sort,
                                funcs@[k as int].deep_view(),
                                funcs@[m as int].deep_view(),
                                funcs@[j].deep_view(),
                            );
                        }
                    }
                }
                m = k;
            }
            k = k + 1;
        }
        let ghost before = funcs@;
        let x = funcs.remove(m);
        proof {
            before.remove_ensures(m as int);
            assert(before.contains(x)) by {
                assert(before[m as int] == x);
            }
        }
        let ghost out_before = out@;
        out.push(x);
        proof {
            assert(out@.to_multiset() =~= out_before.to_multiset().insert(x));
            assert(funcs@.to_multiset() =~= before.to_multiset().remove(x));
            assert(out@.to_multiset().add(funcs@.to_multiset()) =~= orig.to_multiset()) by {
                assert(before.to_multiset().count(x) > 0);
            }
            assert forall|p: int, e: int|
                0 <= p < out@.len() && 0 <= e < funcs@.len() implies sort_le(
                sort,
                out@[p].deep_view(),
                funcs@[e].deep_view(),
            ) by {
                if e < m {
                    assert(funcs@[e] == before[e]);
                } else {
                    assert(funcs@[e] == before[e + 1]);
                }
                if p < out@.len() - 1 {
                } else {
                    assert(out@[p] == x);
                }
            }
        }
    }
    *funcs = out;
    proof {
        assert(funcs@.to_multiset() =~= orig.to_multiset()) by {
            assert(out@.to_multiset().add(Seq::<Func>::empty().to_multiset())
                =~= out@.to_multiset());
        }
    }
}

/// One display row per joined function: name, runtime and human-readable
/// size, tab-separated. Every record reaching the presenter must carry a
/// name and a runtime; the listing supplies both for a listed function.
pub fn rows(funcs: &Vec<Func>) -> (r: Vec<String>)
    requires
        forall|i: int|
            0 <= i < funcs@.len() ==> (#[trigger] funcs@[i]).config.function_name is Some
                && funcs@[i].config.runtime is Some,
    ensures
        r@.len() == funcs@.len(),
        forall|i: int|
            0 <= i < funcs@.len() ==> (#[trigger] r@[i])@ == funcs@[i]@.config.function_name->0
                + "\t"@ + funcs@[i]@.config.runtime->0 + "\t"@ + human_size_of(
                funcs@[i]@.size_or_zero() as int,
            ),
{
    let mut out: Vec<String> = Vec::new();
    let mut i: usize = 0;
    #[verifier::loop_isolation(false)]
    while i < funcs.len()
        invariant
            i <= funcs@.len(),
            out@.len() == i,
            forall|j: int|
                0 <= j < i ==> (#[trigger] out@[j])@ == funcs@[j]@.config.function_name->0 + "\t"@
                    + funcs@[j]@.config.runtime->0 + "\t"@ + human_size_of(
                    funcs@[j]@.size_or_zero() as int,
                ),
        decreases funcs@.len() - i,
    {
        let f = &funcs[i];
        let mut row = f.config.function_name.as_ref().unwrap().clone();
        row.append("\t");
        row.append(f.config.runtime.as_ref().unwrap().as_str());
        row.append("\t");
        let size = f.human_size();
        row.append(size.as_str());
        out.push(row);
        i = i + 1;
    }
    out
}

} // verus!
