use vstd::prelude::*;

verus! {

/// The sixteen digits of upper-case hexadecimal, in order.
pub open spec fn hex_digits() -> Seq<char> {
    seq!['0', '1', '2', '3', '4', '5', '6', '7', '8', '9', 'A', 'B', 'C', 'D', 'E', 'F']
}

/// `n` in upper-case hexadecimal, most significant digit first, without
/// leading zeros (`0` is the single digit `0`).
pub open spec fn hex_upper(n: nat) -> Seq<char>
    decreases n,
{
    if n < 16 {
        seq![hex_digits()[n as int]]
    } else {
        hex_upper(n / 16) + seq![hex_digits()[(n % 16) as int]]
    }
}

/// The prefix that every generated name starts with.
pub open spec fn name_prefix() -> Seq<char> {
    seq!['s', 'h', 'm', 'e', 'm', '_']
}

/// `name` placed under the directory `base`, as a Unix path: an absolute
/// `name` stands alone, and a separator is put between the two only where
/// `base` is not empty and does not already end in one.
pub open spec fn join_spec(base: Seq<char>, name: Seq<char>) -> Seq<char> {
    if name.len() > 0 && name[0] == '/' {
        name
    } else if base.len() == 0 || base.last() == '/' {
        base + name
    } else {
        base + seq!['/'] + name
    }
}

/// Appends the upper-case hexadecimal digits of `n` to `out`.
fn push_hex(n: u64, out: &mut String)
    ensures
        final(out)@ == old(out)@ + hex_upper(n as nat),
    decreases n,
{
    if n >= 16 {
        push_hex(n / 16, out);
    }
    let d = (n % 16) as usize;
    let digits = "0123456789ABCDEF";
    proof {
        reveal_strlit("0123456789ABCDEF");
        assert(digits@ =~= hex_digits());
    }
    let s = digits.substring_char(d, d + 1);
    out.append(s);
    proof {
        assert(s@ =~= seq![hex_digits()[d as int]]);
        assert(final(out)@ =~= old(out)@ + hex_upper(n as nat));
    }
}

/// `n` written in upper-case hexadecimal.
pub fn hex_upper_string(n: u64) -> (r: String)
    ensures
        r@ == hex_upper(n as nat),
{
    let mut out = String::new();
    push_hex(n, &mut out);
    proof {
        assert(out@ =~= hex_upper(n as nat));
    }
    out
}

/// `name` placed under the directory `base` (see `join_spec`).
pub fn join_path(base: &str, name: &str) -> (r: String)
    ensures
        r@ == join_spec(base@, name@),
{
    let name_len = name.unicode_len();
    if name_len > 0 && name.get_char(0) == '/' {
        return name.to_owned();
    }
    let base_len = base.unicode_len();
    let mut r = base.to_owned();
    if base_len > 0 && base.get_char(base_len - 1) != '/' {
        let sep = "/";
        proof {
            reveal_strlit("/");
        }
        r.append(sep);
    }
    r.append(name);
    proof {
        assert(r@ =~= join_spec(base@, name@));
    }
    r
}

/// The generated name `shmem_` followed by `id`.
pub fn prefixed_name(id: &str) -> (r: String)
    ensures
        r@ == name_prefix() + id@,
{
    let prefix = "shmem_";
    proof {
        reveal_strlit("shmem_");
    }
    let mut r = prefix.to_owned();
    r.append(id);
    proof {
        assert(prefix@ =~= name_prefix());
    }
    r
}

} // verus!
