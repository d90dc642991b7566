//! Paths as text, with `/` between components.

use vstd::prelude::*;

verus! {

/// A path that starts at the root of the file system.
pub open spec fn is_absolute(path: Seq<char>) -> bool {
    path.len() > 0 && path[0] == '/'
}

/// `part` placed below `base`.
///
/// An absolute `part` stands for itself, and so does any `part` below an
/// empty `base`. Otherwise the two are written one after the other, with a
/// single `/` between them unless `base` already ends in one.
pub open spec fn joined(base: Seq<char>, part: Seq<char>) -> Seq<char> {
    if is_absolute(part) || base.len() == 0 {
        part
    } else if base.last() == '/' {
        base + part
    } else {
        base + seq!['/'] + part
    }
}

/// Below one base, different relative parts give different paths.
pub proof fn lemma_joined_injective(base: Seq<char>, a: Seq<char>, b: Seq<char>)
    requires
        !is_absolute(a),
        !is_absolute(b),
        joined(base, a) == joined(base, b),
    ensures
        a == b,
{
    if base.len() > 0 {
        let prefix = if base.last() == '/' {
            base
        } else {
            base + seq!['/']
        };
        assert(joined(base, a) =~= prefix + a);
        assert(joined(base, b) =~= prefix + b);
        lemma_same_prefix(prefix, a, b);
    }
}

/// What follows a common prefix is equal when the wholes are.
pub proof fn lemma_same_prefix(prefix: Seq<char>, a: Seq<char>, b: Seq<char>)
    requires
        prefix + a == prefix + b,
    ensures
        a == b,
{
    let n = prefix.len() as int;
    assert((prefix + a).subrange(n, n + a.len()) =~= a);
    assert((prefix + b).subrange(n, n + b.len()) =~= b);
}

/// Places `part` below `base`.
pub fn join(base: &str, part: &str) -> (path: String)
    ensures
        path@ == joined(base@, part@),
{
    let base_len = base.unicode_len();
    let part_len = part.unicode_len();
    if (part_len > 0 && part.get_char(0) == '/') || base_len == 0 {
        part.to_owned()
    } else if base.get_char(base_len - 1) == '/' {
        base.to_owned().concat(part)
    } else {
        proof {
            reveal_strlit("/");
        }
        base.to_owned().concat("/").concat(part)
    }
}

} // verus!
