//! Naming new workspaces: "workspace-1", "workspace-2", and so on, taking
//! the first name not yet in use.

use vstd::prelude::*;
use vstd::string::*;
use vstd::set_lib::*;
use crate::css::{dec_digit, digits_value};

verus! {

/// The character of decimal digit `d`.
pub open spec fn digit_char(d: nat) -> char {
    (48 + d) as char
}

/// The decimal digits of `n`, most significant first.
pub open spec fn decimal(n: nat) -> Seq<char>
    decreases n,
{
    if n < 10 {
        seq![digit_char(n)]
    } else {
        decimal(n / 10).push(digit_char(n % 10))
    }
}

/// The name of the `n`-th workspace.
pub open spec fn workspace_name(n: nat) -> Seq<char> {
    "workspace-"@ + decimal(n)
}

/// Reading the decimal digits of `n` gives back `n`.
pub proof fn lemma_decimal_reads_back(n: nat)
    ensures
        digits_value(decimal(n), 10) == Some(n),
        decimal(n).len() > 0,
    decreases n,
{
    if n < 10 {
        assert(decimal(n).drop_last() =~= Seq::<char>::empty());
        assert(digits_value(decimal(n).drop_last(), 10) == Some(0nat));
        assert(dec_digit(digit_char(n)) == Some(n));
    } else {
        lemma_decimal_reads_back(n / 10);
        assert(decimal(n).drop_last() =~= decimal(n / 10));
        assert(decimal(n).last() == digit_char(n % 10));
        assert(dec_digit(digit_char(n % 10)) == Some(n % 10));
        vstd::arithmetic::div_mod::lemma_fundamental_div_mod(n as int, 10);
        assert((n / 10) * 10 == 10 * (n / 10)) by (nonlinear_arith);
        assert(digits_value(decimal(n), 10) == Some((n / 10) * 10 + n % 10));
    }
}

/// Different workspaces have different names.
pub proof fn lemma_workspace_names_differ(a: nat, b: nat)
    requires
        workspace_name(a) == workspace_name(b),
    ensures
        a == b,
{
    let p = "workspace-"@;
    assert(workspace_name(a).subrange(p.len() as int, workspace_name(a).len() as int) =~= decimal(a));
    assert(workspace_name(b).subrange(p.len() as int, workspace_name(b).len() as int) =~= decimal(b));
    lemma_decimal_reads_back(a);
    lemma_decimal_reads_back(b);
}

/// The text of decimal digit `d`.
fn digit_text(d: u32) -> (s: &'static str)
    requires
        d < 10,
    ensures
        s@ == seq![digit_char(d as nat)],
{
    let all = "0123456789";
    proof {
        reveal_strlit("0123456789");
    }
    let s = all.substring_char(d as usize, d as usize + 1);
    proof {
        assert(s@ =~= seq![digit_char(d as nat)]);
    }
    s
}

/// The decimal digits of `n`.
pub fn decimal_text(n: u64) -> (s: String)
    ensures
        s@ == decimal(n as nat),
    decreases n,
{
    if n < 10 {
        String::from_str(digit_text(n as u32))
    } else {
        let mut s = decimal_text(n / 10);
        s.append(digit_text((n % 10) as u32));
        s
    }
}

/// The name of the `n`-th workspace.
pub fn numbered_workspace_name(n: u32) -> (s: String)
    ensures
        s@ == workspace_name(n as nat),
{
    let mut s = String::from_str("workspace-");
    s.append(decimal_text(n as u64).as_str());
    s
}

/// Whether `name` is one of `existing`.
fn name_taken(existing: &[String], name: &String) -> (b: bool)
    ensures
        b == existing@.map_values(|e: String| e@).contains(name@),
{
    let ghost names = existing@.map_values(|e: String| e@);
    let mut i: usize = 0;
    while i < existing.len()
        invariant
            i <= existing@.len(),
            names == existing@.map_values(|e: String| e@),
            forall|j: int| 0 <= j < i ==> names[j] != name@,
        decreases existing@.len() - i,
    {
        if existing[i] == *name {
            proof {
                assert(names[i as int] == name@);
            }
            return true;
        }
        i = i + 1;
    }
    false
}

/// The first of "workspace-1", "workspace-2", ... that is not one of
/// `existing`.
pub fn next_workspace_name(existing: &[String]) -> (name: String)
    requires
        existing@.len() < u32::MAX,
    ensures
        exists|k: nat|
            #![trigger workspace_name(k)]
            k >= 1 && name@ == workspace_name(k) && !existing@.map_values(|e: String| e@).contains(
                workspace_name(k),
            ) && forall|j: nat|
                1 <= j < k ==> existing@.map_values(|e: String| e@).contains(#[trigger] workspace_name(j)),
{
    let ghost names = existing@.map_values(|e: String| e@);
    let mut n: u32 = 1;
    loop
        invariant
            1 <= n <= existing@.len() + 1,
            existing@.len() < u32::MAX,
            names == existing@.map_values(|e: String| e@),
            forall|j: nat| 1 <= j < n ==> names.contains(#[trigger] workspace_name(j)),
        decreases existing@.len() + 1 - n,
    {
        let name = numbered_workspace_name(n);
        if !name_taken(existing, &name) {
            return name;
        }
        proof {
            lemma_names_fit(names, (n + 1) as nat);
        }
        n = n + 1;
    }
}

/// When the first `k - 1` names are all taken, at least `k - 1` names
/// exist.
proof fn lemma_names_fit(names: Seq<Seq<char>>, k: nat)
    requires
        k >= 1,
        forall|j: nat| 1 <= j < k ==> names.contains(#[trigger] workspace_name(j)),
    ensures
        k - 1 <= names.len(),
{
    let x = set_int_range(1, k as int);
    lemma_int_range(1, k as int);
    let f = |j: int| workspace_name(j as nat);
    let y = x.map(f);
    assert forall|a: int, b: int| x.contains(a) && x.contains(b) && #[trigger] f(a) == #[trigger] f(b) implies a
        == b by {
        lemma_workspace_names_differ(a as nat, b as nat);
    }
    lemma_map_size(x, y, f);
    assert forall|s: Seq<char>| y.contains(s) implies names.to_set().contains(s) by {
        let j = choose|j: int| x.contains(j) && f(j) == s;
        assert(names.contains(workspace_name(j as nat)));
    }
    names.lemma_cardinality_of_set();
    lemma_len_subset(y, names.to_set());
}

} // verus!
