//! The functions a program needs: those reachable from its entry.
use vstd::prelude::*;
use crate::text::{first_index, lemma_first_index};
use crate::wasm::program::{MirFunction, Program, SymbolId};

verus! {

broadcast use vstd::seq_lib::seq_to_set_is_finite;

/// The symbol of each function of `program`, in order.
pub open spec fn function_symbols(program: &Program) -> Seq<SymbolId> {
    program.functions@.map_values(|f: MirFunction| f.symbol)
}

/// `symbol` names a function of `program`.
pub open spec fn defined(program: &Program, symbol: SymbolId) -> bool {
    function_symbols(program).contains(symbol)
}

/// The function that `symbol` names: the first one with that symbol.
pub open spec fn function_of(program: &Program, symbol: SymbolId) -> Option<int> {
    first_index(function_symbols(program), symbol)
}

/// The function named `from` references the defined function `to`.
pub open spec fn edge(program: &Program, from: SymbolId, to: SymbolId) -> bool {
    &&& function_of(program, from) matches Some(i) && program.functions@[i].references@.contains(to)
    &&& defined(program, to)
}

/// `path` is a non-empty chain of references.
pub open spec fn is_path(program: &Program, path: Seq<SymbolId>) -> bool {
    &&& path.len() > 0
    &&& forall|i: int| 0 <= i < path.len() - 1 ==> #[trigger] edge(program, path[i], path[i + 1])
}

/// `symbol` is `entry`, or reachable from `entry` through references.
pub open spec fn reachable(program: &Program, entry: SymbolId, symbol: SymbolId) -> bool {
    exists|path: Seq<SymbolId>| #[trigger] is_path(program, path) && path[0] == entry && path.last() == symbol
}

/// Every symbol the search may meet: `entry` and the function symbols.
pub open spec fn candidates(program: &Program, entry: SymbolId) -> Set<SymbolId> {
    function_symbols(program).to_set().insert(entry)
}

/// Whether `symbols` holds `symbol`.
pub fn contains_symbol(symbols: &Vec<SymbolId>, symbol: SymbolId) -> (r: bool)
    ensures
        r == symbols@.contains(symbol),
{
    let mut i: usize = 0;
    while i < symbols.len()
        invariant
            i <= symbols@.len(),
            forall|j: int| 0 <= j < i ==> symbols@[j] != symbol,
        decreases symbols@.len() - i,
    {
        if symbols[i].0 == symbol.0 {
            return true;
        }
        i = i + 1;
    }
    false
}

/// The position of the function that `symbol` names, if any.
pub fn find_function(program: &Program, symbol: SymbolId) -> (r: Option<usize>)
    ensures
        r matches Some(i) ==> function_of(program, symbol) == Some(i as int),
        r is None ==> function_of(program, symbol) is None,
{
    let ghost syms = function_symbols(program);
    proof {
        lemma_first_index(syms, symbol);
    }
    let mut i: usize = 0;
    while i < program.functions.len()
        invariant
            syms == function_symbols(program),
            i <= syms.len(),
            forall|j: int| 0 <= j < i ==> syms[j] != symbol,
            first_index(syms, symbol) is Some <==> syms.contains(symbol),
            first_index(syms, symbol) matches Some(k) ==> 0 <= k < syms.len() && syms[k] == symbol
                && forall|j: int| 0 <= j < k ==> syms[j] != symbol,
        decreases syms.len() - i,
    {
        if program.functions[i].symbol.0 == symbol.0 {
            assert(syms[i as int] == symbol);
            return Some(i);
        }
        i = i + 1;
    }
    assert(!syms.contains(symbol));
    None
}

proof fn lemma_path_extend(program: &Program, path: Seq<SymbolId>, next: SymbolId)
    requires
        is_path(program, path),
        edge(program, path.last(), next),
    ensures
        is_path(program, path.push(next)),
        path.push(next)[0] == path[0],
        path.push(next).last() == next,
{
    let p2 = path.push(next);
    assert forall|i: int| 0 <= i < p2.len() - 1 implies #[trigger] edge(program, p2[i], p2[i + 1]) by {
        if i < path.len() - 1 {
            assert(p2[i] == path[i] && p2[i + 1] == path[i + 1]);
        } else {
            assert(p2[i] == path.last());
        }
    }
}

/// Closed sets hold every symbol reachable from their members.
proof fn lemma_closed_holds_reachable(program: &Program, entry: SymbolId, seen: Seq<SymbolId>, path: Seq<SymbolId>)
    requires
        seen.contains(entry),
        forall|v: SymbolId, w: SymbolId| seen.contains(v) && #[trigger] edge(program, v, w) ==> seen.contains(w),
        is_path(program, path),
        path[0] == entry,
    ensures
        seen.contains(path.last()),
    decreases path.len(),
{
    if path.len() > 1 {
        let prefix = path.drop_last();
        assert forall|i: int| 0 <= i < prefix.len() - 1 implies #[trigger] edge(program, prefix[i], prefix[i + 1]) by {
            assert(edge(program, path[i], path[i + 1]));
        }
        lemma_closed_holds_reachable(program, entry, seen, prefix);
        let i = path.len() - 2;
        assert(edge(program, path[i], path[i + 1]));
        assert(prefix.last() == path[i]);
    }
}

/// The entry is reachable from itself.
pub proof fn lemma_entry_reachable(program: &Program, entry: SymbolId)
    ensures
        reachable(program, entry, entry),
{
    assert(is_path(program, seq![entry]));
}

/// Reachability is closed under references: a defined function that a
/// reachable function references is reachable too.
pub proof fn lemma_reachable_closed(program: &Program, entry: SymbolId, from: SymbolId, to: SymbolId)
    requires
        reachable(program, entry, from),
        edge(program, from, to),
    ensures
        reachable(program, entry, to),
{
    let path = choose|path: Seq<SymbolId>| #[trigger] is_path(program, path) && path[0] == entry && path.last() == from;
    lemma_path_extend(program, path, to);
    assert(is_path(program, path.push(to)));
}

/// Apart from the entry, only functions the program defines are reachable.
pub proof fn lemma_reachable_defined(program: &Program, entry: SymbolId, symbol: SymbolId)
    requires
        reachable(program, entry, symbol),
        symbol != entry,
    ensures
        defined(program, symbol),
{
    let path = choose|path: Seq<SymbolId>| #[trigger] is_path(program, path) && path[0] == entry && path.last() == symbol;
    assert(path.len() > 1);
    let i = path.len() - 2;
    assert(edge(program, path[i], path[i + 1]));
    assert(path[i + 1] == path.last());
}

/// The symbols reachable from `entry` (which is always included) through
/// calls, started futures, function values, closures and spawns of defined
/// functions, each once.
pub fn reachable_functions(program: &Program, entry: SymbolId) -> (r: Vec<SymbolId>)
    ensures
        r@.no_duplicates(),
        forall|s: SymbolId| r@.contains(s) <==> reachable(program, entry, s),
{
    let ghost cands = candidates(program, entry);
    let mut visited: Vec<SymbolId> = Vec::new();
    let mut stack: Vec<SymbolId> = Vec::new();
    stack.push(entry);
    proof {
        assert(is_path(program, seq![entry]));
        assert(stack@[0] == entry);
        assert(cands.contains(entry));
    }
    loop
        invariant
            cands == candidates(program, entry),
            cands.finite(),
            visited@.no_duplicates(),
            visited@.contains(entry) || stack@.contains(entry),
            forall|s: SymbolId| visited@.contains(s) ==> reachable(program, entry, s),
            forall|s: SymbolId| stack@.contains(s) ==> reachable(program, entry, s),
            forall|s: SymbolId| visited@.contains(s) ==> cands.contains(s),
            forall|s: SymbolId| stack@.contains(s) ==> cands.contains(s),
            forall|v: SymbolId, w: SymbolId|
                visited@.contains(v) && #[trigger] edge(program, v, w)
                    ==> visited@.contains(w) || stack@.contains(w),
        ensures
            stack@.len() == 0,
        decreases cands.len() - visited@.len(), stack@.len(),
    {
        let ghost before = stack@;
        match stack.pop() {
            None => {
                assert(stack@.len() == 0);
                break;
            },
            Some(symbol) => {
                assert(before == stack@.push(symbol));
                assert forall|s: SymbolId| #[trigger] before.contains(s) && s != symbol implies stack@.contains(s) by {
                    let k = choose|k: int| 0 <= k < before.len() && before[k] == s;
                    assert(k < stack@.len());
                    assert(stack@[k] == s);
                }
                assert(before.contains(symbol)) by {
                    assert(before[before.len() - 1] == symbol);
                }
                if contains_symbol(&visited, symbol) {
                    continue;
                }
                proof {
                    visited@.unique_seq_to_set();
                    assert(visited@.to_set().insert(symbol).subset_of(cands));
                    vstd::set_lib::lemma_len_subset(visited@.to_set().insert(symbol), cands);
                }
                let ghost old_visited = visited@;
                visited.push(symbol);
                proof {
                    assert(visited@.no_duplicates()) by {
                        assert forall|a: int, b: int| 0 <= a < b < visited@.len() implies visited@[a] != visited@[b] by {
                            if b == visited@.len() - 1 {
                                assert(old_visited.contains(visited@[a]) ==> visited@[a] != symbol);
                                assert(old_visited[a] == visited@[a]);
                            }
                        }
                    }
                    assert forall|s: SymbolId| #[trigger] old_visited.contains(s) implies visited@.contains(s) by {
                        let k = choose|k: int| 0 <= k < old_visited.len() && old_visited[k] == s;
                        assert(visited@[k] == s);
                    }
                    assert(visited@[visited@.len() - 1] == symbol);
                }
                proof {
                    lemma_first_index(function_symbols(program), symbol);
                }
                match find_function(program, symbol) {
                    None => {
                        assert forall|v: SymbolId, w: SymbolId|
                            visited@.contains(v) && #[trigger] edge(program, v, w)
                                implies visited@.contains(w) || stack@.contains(w) by {
                            if v != symbol {
                                let k = choose|k: int| 0 <= k < visited@.len() && visited@[k] == v;
                                assert(old_visited[k] == v);
                            }
                        }
                    },
                    Some(index) => {
                        let targets = &program.functions[index].references;
                        let ghost path_to_symbol = choose|path: Seq<SymbolId>|
                            #[trigger] is_path(program, path) && path[0] == entry && path.last() == symbol;
                        let ghost stack_before_targets = stack@;
                        let mut j: usize = 0;
                        while j < targets.len()
                            invariant
                                cands == candidates(program, entry),
                                function_of(program, symbol) == Some(index as int),
                                index < program.functions@.len(),
                                targets == &program.functions@[index as int].references,
                                is_path(program, path_to_symbol),
                                path_to_symbol[0] == entry,
                                path_to_symbol.last() == symbol,
                                j <= targets@.len(),
                                stack@.len() >= stack_before_targets.len(),
                                stack@.subrange(0, stack_before_targets.len() as int) == stack_before_targets,
                                forall|s: SymbolId| stack@.contains(s) ==> reachable(program, entry, s),
                                forall|s: SymbolId| stack@.contains(s) ==> cands.contains(s),
                                forall|w: SymbolId| #[trigger] targets@.subrange(0, j as int).contains(w)
                                    && defined(program, w) ==> stack@.contains(w),
                            decreases targets@.len() - j,
                        {
                            let target = targets[j];
                            let ghost prev = stack@;
                            if find_function(program, target).is_some() {
                                proof {
                                    lemma_first_index(function_symbols(program), target);
                                    assert(edge(program, symbol, target)) by {
                                        assert(targets@[j as int] == target);
                                    }
                                    lemma_path_extend(program, path_to_symbol, target);
                                    assert(is_path(program, path_to_symbol.push(target)));
                                }
                                stack.push(target);
                                proof {
                                    assert forall|s: SymbolId| #[trigger] prev.contains(s) implies stack@.contains(s) by {
                                        let k = choose|k: int| 0 <= k < prev.len() && prev[k] == s;
                                        assert(stack@[k] == s);
                                    }
                                    assert(stack@[stack@.len() - 1] == target);
                                    assert(stack@.subrange(0, stack_before_targets.len() as int)
                                        =~= prev.subrange(0, stack_before_targets.len() as int));
                                    assert(cands.contains(target)) by {
                                        let k = choose|k: int| 0 <= k < function_symbols(program).len()
                                            && function_symbols(program)[k] == target;
                                        assert(function_symbols(program).to_set().contains(target));
                                    }
                                }
                            } else {
                                proof {
                                    lemma_first_index(function_symbols(program), target);
                                }
                            }
                            proof {
                                assert forall|w: SymbolId| #[trigger] targets@.subrange(0, j + 1).contains(w)
                                    && defined(program, w) implies stack@.contains(w) by {
                                    let sub = targets@.subrange(0, j + 1);
                                    let k = choose|k: int| 0 <= k < sub.len() && #[trigger] sub[k] == w;
                                    if k < j {
                                        assert(targets@.subrange(0, j as int)[k] == w);
                                        assert(targets@.subrange(0, j as int).contains(w));
                                        assert(prev.contains(w));
                                        let q = choose|q: int| 0 <= q < prev.len() && prev[q] == w;
                                        assert(stack@[q] == w);
                                    } else {
                                        assert(w == target);
                                        lemma_first_index(function_symbols(program), w);
                                    }
                                }
                            }
                            j = j + 1;
                        }
                        proof {
                            assert(targets@.subrange(0, targets@.len() as int) =~= targets@);
                            assert forall|s: SymbolId| #[trigger] stack_before_targets.contains(s) implies stack@.contains(s) by {
                                let k = choose|k: int| 0 <= k < stack_before_targets.len() && stack_before_targets[k] == s;
                                assert(stack@.subrange(0, stack_before_targets.len() as int)[k] == s);
                            }
                            assert forall|v: SymbolId, w: SymbolId|
                                visited@.contains(v) && #[trigger] edge(program, v, w)
                                    implies visited@.contains(w) || stack@.contains(w) by {
                                if v == symbol {
                                    assert(targets@.contains(w));
                                } else {
                                    let k = choose|k: int| 0 <= k < visited@.len() && visited@[k] == v;
                                    assert(old_visited[k] == v);
                                }
                            }
                        }
                    },
                }
            },
        }
    }
    proof {
        assert forall|s: SymbolId| reachable(program, entry, s) implies visited@.contains(s) by {
            let path = choose|path: Seq<SymbolId>| #[trigger] is_path(program, path) && path[0] == entry && path.last() == s;
            lemma_closed_holds_reachable(program, entry, visited@, path);
        }
    }
    visited
}

} // verus!
