//! Names of the files a run writes.
//!
//! A certificate's file is named after its position in the chain and its
//! common name: the position in decimal, at least two digits wide, a hyphen,
//! the common name, and the extension `.pem`.

use vstd::prelude::*;
use vstd::string::StringExecFns;

verus! {

/// The character of one decimal digit.
pub open spec fn digit(d: nat) -> char {
    if d == 0 {
        '0'
    } else if d == 1 {
        '1'
    } else if d == 2 {
        '2'
    } else if d == 3 {
        '3'
    } else if d == 4 {
        '4'
    } else if d == 5 {
        '5'
    } else if d == 6 {
        '6'
    } else if d == 7 {
        '7'
    } else if d == 8 {
        '8'
    } else {
        '9'
    }
}

/// Whether a character is a decimal digit.
pub open spec fn is_digit(c: char) -> bool {
    c == '0' || c == '1' || c == '2' || c == '3' || c == '4' || c == '5' || c == '6' || c == '7'
        || c == '8' || c == '9'
}

/// A number in decimal, without leading zeros.
pub open spec fn decimal(n: nat) -> Seq<char>
    decreases n,
{
    if n < 10 {
        seq![digit(n)]
    } else {
        decimal(n / 10).push(digit(n % 10))
    }
}

/// A chain position as it stands in a file name: in decimal, padded with a
/// zero to two digits.
pub open spec fn index_label(index: nat) -> Seq<char> {
    if index < 10 {
        seq!['0', digit(index)]
    } else {
        decimal(index)
    }
}

/// The name of the file of the certificate at `index` with the given common
/// name.
pub open spec fn certificate_file_name(index: nat, common_name: Seq<char>) -> Seq<char> {
    index_label(index) + "-"@ + common_name + ".pem"@
}

/// The path of a file directly under `output_dir`.
pub open spec fn path_in(output_dir: Seq<char>, file_name: Seq<char>) -> Seq<char> {
    output_dir + "/"@ + file_name
}

/// The path of the file of the certificate at `index`.
pub open spec fn certificate_path(output_dir: Seq<char>, index: nat, common_name: Seq<char>) -> Seq<
    char,
> {
    path_in(output_dir, certificate_file_name(index, common_name))
}

/// The path of the file that holds the whole chain.
pub open spec fn full_chain_path(output_dir: Seq<char>) -> Seq<char> {
    path_in(output_dir, "fullchain.pem"@)
}

/// The text of one decimal digit.
fn digit_text(d: usize) -> (text: &'static str)
    requires
        d < 10,
    ensures
        text@ == seq![digit(d as nat)],
{
    proof {
        reveal_strlit("0");
        reveal_strlit("1");
        reveal_strlit("2");
        reveal_strlit("3");
        reveal_strlit("4");
        reveal_strlit("5");
        reveal_strlit("6");
        reveal_strlit("7");
        reveal_strlit("8");
        reveal_strlit("9");
    }
    let text = if d == 0 {
        "0"
    } else if d == 1 {
        "1"
    } else if d == 2 {
        "2"
    } else if d == 3 {
        "3"
    } else if d == 4 {
        "4"
    } else if d == 5 {
        "5"
    } else if d == 6 {
        "6"
    } else if d == 7 {
        "7"
    } else if d == 8 {
        "8"
    } else {
        "9"
    };
    assert(text@ =~= seq![digit(d as nat)]);
    text
}

/// Writes `n` in decimal.
pub fn decimal_text(n: usize) -> (text: String)
    ensures
        text@ == decimal(n as nat),
    decreases n,
{
    if n < 10 {
        String::from_str(digit_text(n))
    } else {
        let mut text = decimal_text(n / 10);
        text.append(digit_text(n % 10));
        assert(text@ =~= decimal(n as nat));
        text
    }
}

/// Writes a chain position as it stands in a file name.
pub fn index_label_text(index: usize) -> (text: String)
    ensures
        text@ == index_label(index as nat),
{
    if index < 10 {
        let mut text = String::from_str("0");
        text.append(digit_text(index));
        proof {
            reveal_strlit("0");
            assert(text@ =~= index_label(index as nat));
        }
        text
    } else {
        decimal_text(index)
    }
}

/// Builds the name of the file of the certificate at `index`.
pub fn certificate_file_name_text(index: usize, common_name: &str) -> (name: String)
    ensures
        name@ == certificate_file_name(index as nat, common_name@),
{
    let mut name = index_label_text(index);
    name.append("-");
    name.append(common_name);
    name.append(".pem");
    name
}

/// Builds the path of a file directly under `output_dir`.
pub fn path_in_text(output_dir: &str, file_name: &str) -> (path: String)
    ensures
        path@ == path_in(output_dir@, file_name@),
{
    let mut path = String::from_str(output_dir);
    path.append("/");
    path.append(file_name);
    path
}

/// Builds the path of the file of the certificate at `index`.
pub fn certificate_path_text(output_dir: &str, index: usize, common_name: &str) -> (path: String)
    ensures
        path@ == certificate_path(output_dir@, index as nat, common_name@),
{
    let name = certificate_file_name_text(index, common_name);
    path_in_text(output_dir, name.as_str())
}

/// Builds the path of the file that holds the whole chain.
pub fn full_chain_path_text(output_dir: &str) -> (path: String)
    ensures
        path@ == full_chain_path(output_dir@),
{
    path_in_text(output_dir, "fullchain.pem")
}

/// Whether `a` comes before `b` when texts are sorted character by
/// character: at the first position where they differ `a` has the smaller
/// character, or `a` ends there and `b` goes on.
pub open spec fn sorts_before(a: Seq<char>, b: Seq<char>) -> bool {
    exists|k: int|
        0 <= k <= a.len() && k <= b.len() && #[trigger] a.subrange(0, k) == b.subrange(0, k) && (
        if k == a.len() {
            k < b.len()
        } else {
            k < b.len() && a[k] < b[k]
        })
}

/// A number in decimal is made of digits, at least one, and does not start
/// with a zero unless the number is zero.
pub proof fn decimal_is_digits(n: nat)
    ensures
        decimal(n).len() >= 1,
        n >= 10 ==> decimal(n).len() >= 2,
        n >= 100 ==> decimal(n).len() >= 3,
        forall|k: int| 0 <= k < decimal(n).len() ==> is_digit(#[trigger] decimal(n)[k]),
        n >= 1 ==> decimal(n)[0] != '0',
    decreases n,
{
    if n >= 10 {
        decimal_is_digits(n / 10);
    }
}

/// Different numbers are written differently.
pub proof fn decimal_is_injective(n: nat, m: nat)
    requires
        decimal(n) == decimal(m),
    ensures
        n == m,
    decreases n,
{
    decimal_is_digits(n);
    decimal_is_digits(m);
    if n >= 10 {
        assert(decimal(n).len() >= 2);
        assert(m >= 10);
        let a = decimal(n / 10);
        let b = decimal(m / 10);
        assert(a =~= decimal(n).drop_last());
        assert(b =~= decimal(m).drop_last());
        assert(digit(n % 10) == decimal(n).last());
        assert(digit(m % 10) == decimal(m).last());
        decimal_is_injective(n / 10, m / 10);
    } else {
        assert(decimal(n).len() == 1);
        assert(m < 10);
        assert(decimal(n)[0] == decimal(m)[0]);
    }
}

/// Below one hundred a label is exactly two digits: the tens, then the
/// units.
pub proof fn label_is_two_digits(index: nat)
    requires
        index < 100,
    ensures
        index_label(index) == seq![digit(index / 10), digit(index % 10)],
{
    if index >= 10 {
        assert(decimal(index / 10) == seq![digit(index / 10)]);
        assert(index_label(index) =~= seq![digit(index / 10), digit(index % 10)]);
    }
}

/// A label is made of digits, at least two.
pub proof fn label_is_digits(index: nat)
    ensures
        index_label(index).len() >= 2,
        forall|k: int| 0 <= k < index_label(index).len() ==> is_digit(#[trigger] index_label(index)[k]),
{
    decimal_is_digits(index);
}

/// Different positions have different labels.
pub proof fn label_is_injective(i: nat, j: nat)
    requires
        index_label(i) == index_label(j),
    ensures
        i == j,
{
    decimal_is_digits(i);
    decimal_is_digits(j);
    if i < 10 && j < 10 {
        assert(index_label(i)[1] == index_label(j)[1]);
    } else if i < 10 {
        assert(index_label(i)[0] == '0');
        assert(index_label(j)[0] != '0');
    } else if j < 10 {
        assert(index_label(j)[0] == '0');
        assert(index_label(i)[0] != '0');
    } else {
        decimal_is_injective(i, j);
    }
}

/// Two certificates at different positions of a chain never share a file,
/// whatever their common names are.
pub proof fn paths_do_not_collide(
    output_dir: Seq<char>,
    i: nat,
    j: nat,
    name_i: Seq<char>,
    name_j: Seq<char>,
)
    requires
        i != j,
    ensures
        certificate_path(output_dir, i, name_i) != certificate_path(output_dir, j, name_j),
{
    reveal_strlit("-");
    reveal_strlit("/");
    let a = certificate_file_name(i, name_i);
    let b = certificate_file_name(j, name_j);
    let la = index_label(i);
    let lb = index_label(j);
    label_is_digits(i);
    label_is_digits(j);
    if certificate_path(output_dir, i, name_i) == certificate_path(output_dir, j, name_j) {
        let p = certificate_path(output_dir, i, name_i);
        let q = certificate_path(output_dir, j, name_j);
        let start = output_dir.len() + 1;
        assert(a =~= p.subrange(start as int, p.len() as int));
        assert(b =~= q.subrange(start as int, q.len() as int));
        assert(a == b);
        assert(a[la.len() as int] == '-');
        assert(b[lb.len() as int] == '-');
        assert(forall|k: int| 0 <= k < la.len() ==> a[k] == #[trigger] la[k]);
        assert(forall|k: int| 0 <= k < lb.len() ==> b[k] == #[trigger] lb[k]);
        if la.len() < lb.len() {
            assert(is_digit(lb[la.len() as int]));
            assert(false);
        }
        if lb.len() < la.len() {
            assert(is_digit(la[lb.len() as int]));
            assert(false);
        }
        assert(la =~= lb);
        label_is_injective(i, j);
    }
}

/// For chains of up to one hundred certificates, sorting the files by name
/// gives the order of the chain: the file of an earlier certificate sorts
/// before the file of a later one, whatever their common names are.
pub proof fn files_sort_in_chain_order(
    output_dir: Seq<char>,
    i: nat,
    j: nat,
    name_i: Seq<char>,
    name_j: Seq<char>,
)
    requires
        i < j < 100,
    ensures
        sorts_before(index_label(i), index_label(j)),
        sorts_before(certificate_file_name(i, name_i), certificate_file_name(j, name_j)),
        sorts_before(
            certificate_path(output_dir, i, name_i),
            certificate_path(output_dir, j, name_j),
        ),
{
    reveal_strlit("-");
    reveal_strlit("/");
    label_is_two_digits(i);
    label_is_two_digits(j);
    let la = index_label(i);
    let lb = index_label(j);
    let a = certificate_file_name(i, name_i);
    let b = certificate_file_name(j, name_j);
    let p = certificate_path(output_dir, i, name_i);
    let q = certificate_path(output_dir, j, name_j);
    let start = output_dir.len() + 1;
    // The first digit that differs, counted from the start of the label.
    let k: int = if i / 10 == j / 10 { 1 } else { 0 };
    assert(la[k] < lb[k]);
    assert(la.subrange(0, k) =~= lb.subrange(0, k));
    assert(a[k] == la[k] && b[k] == lb[k]);
    assert(a.subrange(0, k) =~= b.subrange(0, k));
    assert(p[start + k] == la[k] && q[start + k] == lb[k]);
    assert(p.subrange(0, start + k) =~= q.subrange(0, start + k));
}

} // verus!
