//! Deterministic text derivation: decimal rendering of pull-request numbers,
//! the branch names derived from them, and the title/body templates that
//! carry provenance back to the original pull request.

use vstd::prelude::*;
use vstd::string::StringExecFns;

verus! {

/// The character standing for one decimal digit value.
pub open spec fn digit_char(d: nat) -> char {
    if d == 0 {
        '0'
    } else if d == 1 {
        '1'
    } else if d == 2 {
        '2'
    } else if d == 3 {
        '3'
    } else if d == 4 {
        '4'
    } else if d == 5 {
        '5'
    } else if d == 6 {
        '6'
    } else if d == 7 {
        '7'
    } else if d == 8 {
        '8'
    } else {
        '9'
    }
}

/// The decimal representation of `n`, most significant digit first, with no
/// leading zeros (a single `'0'` for zero itself).
pub open spec fn decimal_digits(n: nat) -> Seq<char>
    decreases n,
{
    if n < 10 {
        seq![digit_char(n)]
    } else {
        decimal_digits(n / 10) + seq![digit_char(n % 10)]
    }
}

fn decimal_digit_string(d: u64) -> (s: String)
    requires
        d < 10,
    ensures
        s@ == seq![digit_char(d as nat)],
{
    let s = match d {
        0 => String::from_str("0"),
        1 => String::from_str("1"),
        2 => String::from_str("2"),
        3 => String::from_str("3"),
        4 => String::from_str("4"),
        5 => String::from_str("5"),
        6 => String::from_str("6"),
        7 => String::from_str("7"),
        8 => String::from_str("8"),
        _ => String::from_str("9"),
    };
    proof {
        reveal_strlit("0");
        reveal_strlit("1");
        reveal_strlit("2");
        reveal_strlit("3");
        reveal_strlit("4");
        reveal_strlit("5");
        reveal_strlit("6");
        reveal_strlit("7");
        reveal_strlit("8");
        reveal_strlit("9");
        assert(s@ =~= seq![digit_char(d as nat)]);
    }
    s
}

/// Renders `n` in decimal.
pub fn render_decimal(n: u64) -> (s: String)
    ensures
        s@ == decimal_digits(n as nat),
    decreases n,
{
    if n < 10 {
        decimal_digit_string(n)
    } else {
        let mut s = render_decimal(n / 10);
        let last = decimal_digit_string(n % 10);
        s.append(last.as_str());
        s
    }
}

/// The name of the remote branch the merged result is pushed to. Derived
/// from the pull-request number alone, so a rerun for the same number
/// overwrites its own earlier attempt and never an unrelated branch.
pub open spec fn publish_branch_name(pr_number: nat) -> Seq<char> {
    "repost-pr-"@ + decimal_digits(pr_number)
}

/// The name of the local integration branch the merge is staged on. Distinct
/// from `publish_branch_name` for every pair of pull-request numbers.
pub open spec fn integration_branch_name(pr_number: nat) -> Seq<char> {
    "repost-integration-"@ + decimal_digits(pr_number)
}

/// Builds the publish branch name for `pr_number`.
pub fn publish_branch(pr_number: u64) -> (s: String)
    ensures
        s@ == publish_branch_name(pr_number as nat),
{
    let mut s = String::from_str("repost-pr-");
    let digits = render_decimal(pr_number);
    s.append(digits.as_str());
    s
}

/// Builds the integration branch name for `pr_number`.
pub fn integration_branch(pr_number: u64) -> (s: String)
    ensures
        s@ == integration_branch_name(pr_number as nat),
{
    let mut s = String::from_str("repost-integration-");
    let digits = render_decimal(pr_number);
    s.append(digits.as_str());
    s
}

/// The title of the new pull request: the original title behind a marker.
pub open spec fn repost_title(original_title: Seq<char>) -> Seq<char> {
    "[Repost] "@ + original_title
}

/// The body of the new pull request: the original author's handle, the
/// original pull-request number, and the original body text verbatim.
pub open spec fn repost_body(author: Seq<char>, pr_number: nat, original_body: Seq<char>) -> Seq<
    char,
> {
    "This is a reposted PR originally created by @"@ + author + " in pull request #"@
        + decimal_digits(pr_number) + ".\n\n"@ + original_body
}

/// Builds the title of the new pull request.
pub fn build_repost_title(original_title: &String) -> (s: String)
    ensures
        s@ == repost_title(original_title@),
{
    let mut s = String::from_str("[Repost] ");
    s.append(original_title.as_str());
    s
}

/// Builds the body of the new pull request.
pub fn build_repost_body(author: &String, pr_number: u64, original_body: &String) -> (s: String)
    ensures
        s@ == repost_body(author@, pr_number as nat, original_body@),
{
    let mut s = String::from_str("This is a reposted PR originally created by @");
    s.append(author.as_str());
    s.append(" in pull request #");
    let digits = render_decimal(pr_number);
    s.append(digits.as_str());
    s.append(".\n\n");
    s.append(original_body.as_str());
    s
}

/// `needle` occurs verbatim somewhere inside `hay`.
pub open spec fn contains_seq(hay: Seq<char>, needle: Seq<char>) -> bool {
    exists|i: int|
        0 <= i && i + needle.len() <= hay.len() && #[trigger] hay.subrange(i, i + needle.len())
            == needle
}

/// The body of a reposted pull request carries the original author's handle
/// and the original pull-request number verbatim.
pub proof fn lemma_repost_body_provenance(author: Seq<char>, pr_number: nat, original_body: Seq<
    char,
>)
    ensures
        contains_seq(repost_body(author, pr_number, original_body), author),
        contains_seq(repost_body(author, pr_number, original_body), decimal_digits(pr_number)),
{
    let lead = "This is a reposted PR originally created by @"@;
    let mid = " in pull request #"@;
    let digits = decimal_digits(pr_number);
    let tail = ".\n\n"@;
    let body = repost_body(author, pr_number, original_body);
    let a_at = lead.len() as int;
    assert(body.subrange(a_at, a_at + author.len()) =~= author);
    assert(contains_seq(body, author));
    let d_at = (lead.len() + author.len() + mid.len()) as int;
    assert(body.subrange(d_at, d_at + digits.len()) =~= digits);
    assert(contains_seq(body, digits));
}

proof fn lemma_decimal_digits_len(n: nat)
    ensures
        decimal_digits(n).len() >= 1,
        (n < 10) <==> (decimal_digits(n).len() == 1),
    decreases n,
{
    if n >= 10 {
        lemma_decimal_digits_len(n / 10);
    }
}

proof fn lemma_decimal_digits_last(n: nat)
    ensures
        decimal_digits(n).len() >= 1,
        decimal_digits(n).last() == digit_char(n % 10),
    decreases n,
{
    if n >= 10 {
        lemma_decimal_digits_len(n / 10);
    }
}

proof fn lemma_digit_char_injective(a: nat, b: nat)
    requires
        a < 10,
        b < 10,
        digit_char(a) == digit_char(b),
    ensures
        a == b,
{
}

/// Distinct numbers have distinct decimal representations.
pub proof fn lemma_decimal_digits_injective(a: nat, b: nat)
    requires
        decimal_digits(a) == decimal_digits(b),
    ensures
        a == b,
    decreases a,
{
    lemma_decimal_digits_last(a);
    lemma_decimal_digits_last(b);
    lemma_decimal_digits_len(a);
    lemma_decimal_digits_len(b);
    lemma_digit_char_injective(a % 10, b % 10);
    if a < 10 && b < 10 {
        lemma_digit_char_injective(a, b);
    } else if a >= 10 && b >= 10 {
        assert(decimal_digits(a).subrange(0, decimal_digits(a).len() - 1) =~= decimal_digits(
            a / 10,
        ));
        assert(decimal_digits(b).subrange(0, decimal_digits(b).len() - 1) =~= decimal_digits(
            b / 10,
        ));
        lemma_decimal_digits_injective(a / 10, b / 10);
    }
}

proof fn lemma_prefixed_injective(prefix: Seq<char>, a: Seq<char>, b: Seq<char>)
    requires
        prefix + a == prefix + b,
    ensures
        a == b,
{
    assert((prefix + a).len() == prefix.len() + a.len());
    assert((prefix + b).len() == prefix.len() + b.len());
    assert(a.len() == b.len());
    assert(a =~= b) by {
        assert forall|i: int| 0 <= i < a.len() implies a[i] == b[i] by {
            assert((prefix + a)[prefix.len() + i] == a[i]);
            assert(0 <= i < b.len());
            assert((prefix + b)[prefix.len() + i] == b[i]);
        }
    }
}

/// Publish branch names never collide across distinct pull-request numbers.
pub proof fn lemma_publish_branch_injective(a: nat, b: nat)
    requires
        a != b,
    ensures
        publish_branch_name(a) != publish_branch_name(b),
{
    if publish_branch_name(a) == publish_branch_name(b) {
        lemma_prefixed_injective("repost-pr-"@, decimal_digits(a), decimal_digits(b));
        lemma_decimal_digits_injective(a, b);
    }
}

/// Integration branch names never collide across distinct pull-request
/// numbers.
pub proof fn lemma_integration_branch_injective(a: nat, b: nat)
    requires
        a != b,
    ensures
        integration_branch_name(a) != integration_branch_name(b),
{
    if integration_branch_name(a) == integration_branch_name(b) {
        lemma_prefixed_injective("repost-integration-"@, decimal_digits(a), decimal_digits(b));
        lemma_decimal_digits_injective(a, b);
    }
}

/// The staged integration branch is never itself the published branch: the
/// two derived names differ for every pair of pull-request numbers.
pub proof fn lemma_branch_names_distinct(a: nat, b: nat)
    ensures
        publish_branch_name(a) != integration_branch_name(b),
{
    reveal_strlit("repost-pr-");
    reveal_strlit("repost-integration-");
    lemma_decimal_digits_len(a);
    lemma_decimal_digits_len(b);
    assert(publish_branch_name(a)[7] == 'p');
    assert(integration_branch_name(b)[7] == 'i');
}

} // verus!
