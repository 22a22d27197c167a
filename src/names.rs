use vstd::prelude::*;
use vstd::string::*;

verus! {

/// The separator placed between a backend's name and one of its tool names.
pub const NAMESPACE_SEPARATOR: &'static str = "__";

/// The separator as a sequence of characters.
pub open spec fn sep() -> Seq<char> {
    seq!['_', '_']
}

/// The separator starts at position `i` of `s`.
pub open spec fn sep_at(s: Seq<char>, i: int) -> bool {
    0 <= i && i + 1 < s.len() && s[i] == '_' && s[i + 1] == '_'
}

/// `s` holds the separator somewhere.
pub open spec fn has_sep(s: Seq<char>) -> bool {
    exists|i: int| sep_at(s, i)
}

/// The first occurrence of the separator in `s` starts at `i`.
pub open spec fn first_sep_at(s: Seq<char>, i: int) -> bool {
    &&& sep_at(s, i)
    &&& forall|j: int| 0 <= j < i ==> !sep_at(s, j)
}

/// The composite name of tool `tool` of backend `backend`.
pub open spec fn namespaced(backend: Seq<char>, tool: Seq<char>) -> Seq<char> {
    backend + sep() + tool
}

/// Builds the composite name `backend + "__" + tool`.
pub fn namespace_tool(mcp_name: &str, tool_name: &str) -> (r: String)
    ensures
        r@ == namespaced(mcp_name@, tool_name@),
{
    let mut r = mcp_name.to_owned();
    proof {
        reveal_strlit("__");
    }
    r.append(NAMESPACE_SEPARATOR);
    r.append(tool_name);
    r
}

/// Splits a composite name at the first occurrence of the separator.
/// Returns `None` when the name holds no separator.
pub fn parse_namespaced_tool(namespaced: &str) -> (r: Option<(&str, &str)>)
    ensures
        r is None <==> !has_sep(namespaced@),
        r matches Some((b, t)) ==> {
            &&& first_sep_at(namespaced@, b@.len() as int)
            &&& b@ == namespaced@.take(b@.len() as int)
            &&& t@ == namespaced@.skip(b@.len() + 2int)
        },
{
    let n = namespaced.unicode_len();
    let mut i: usize = 0;
    while i < n
        invariant
            n == namespaced@.len(),
            i <= n,
            forall|j: int| 0 <= j < i ==> !sep_at(namespaced@, j),
        decreases n - i,
    {
        if i + 1 < n && namespaced.get_char(i) == '_' && namespaced.get_char(i + 1) == '_' {
            assert(sep_at(namespaced@, i as int));
            let b = namespaced.substring_char(0, i);
            let t = namespaced.substring_char(i + 2, n);
            assert(b@ =~= namespaced@.take(i as int));
            assert(t@ =~= namespaced@.skip(i + 2));
            return Some((b, t));
        }
        i = i + 1;
    }
    assert forall|j: int| !sep_at(namespaced@, j) by {
        if 0 <= j && j < i {
        } else if j >= i {
            assert(!(j + 1 < n));
        }
    }
    None
}

/// Splitting `backend + "__" + tool` at the first separator gives back
/// `backend` and `tool`, for every backend name that holds no separator and
/// does not end in `_`, and every tool name that holds no separator.
pub proof fn lemma_split_namespaced(backend: Seq<char>, tool: Seq<char>)
    requires
        !has_sep(backend),
        backend.len() == 0 || backend.last() != '_',
        !has_sep(tool),
    ensures
        forall|i: int| first_sep_at(namespaced(backend, tool), i) <==> i == backend.len(),
        namespaced(backend, tool).take(backend.len() as int) == backend,
        namespaced(backend, tool).skip(backend.len() + 2int) == tool,
{
    let s = namespaced(backend, tool);
    let n = backend.len() as int;
    assert(s[n] == '_' && s[n + 1] == '_');
    assert forall|j: int| 0 <= j < n implies !sep_at(s, j) by {
        if j + 1 < n {
            assert(!sep_at(backend, j));
        } else {
            assert(backend[j] == s[j]);
        }
    }
    assert(first_sep_at(s, n));
    assert forall|i: int| first_sep_at(s, i) implies i == n by {
        if i > n {
            assert(sep_at(s, n));
        }
    }
    assert(s.take(n) =~= backend);
    assert(s.skip(n + 2) =~= tool);
}

} // verus!
