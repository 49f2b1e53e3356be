use vstd::prelude::*;
use vstd::string::StringExecFns;

verus! {

/// The bytes of a C string without its terminator: no NUL among them.
pub open spec fn is_c_str(bytes: Seq<u8>) -> bool {
    !bytes.contains(0u8)
}

/// What writing `name` and its terminator at the front of `target` leaves there.
pub open spec fn with_c_str(target: Seq<u8>, name: Seq<u8>) -> Seq<u8> {
    name.push(0u8) + target.subrange(name.len() + 1int, target.len() as int)
}

/// The text that a NUL-terminated buffer holds: the bytes before its first NUL,
/// or `None` where it holds no NUL.
pub open spec fn c_str_until_nul(buffer: Seq<u8>) -> Option<Seq<u8>> {
    if buffer.contains(0u8) {
        Some(buffer.subrange(0, buffer.index_of_first(0u8)->Some_0))
    } else {
        None
    }
}

/// A name together with its terminator does not fit a fixed-size field.
#[derive(Clone, Copy, Debug, PartialEq, Eq, Structural)]
pub struct NameTooLarge {
    /// The size of the field, terminator included.
    pub static_array_size: usize,
    /// The size the name needs, terminator included.
    pub c_str_size: usize,
}

/// A fixed-size field holds no NUL terminator.
#[derive(Clone, Copy, Debug, PartialEq, Eq, Structural)]
pub struct NulNotFound;

/// Writes `name` and a NUL terminator at the front of `target`, leaving the
/// rest of it as it was. Fails, writing nothing, where they do not fit.
pub fn write_c_str_slice_with_nul(target: &mut [u8], name: &[u8]) -> (r: Result<(), NameTooLarge>)
    requires
        is_c_str(name@),
        name@.len() < usize::MAX,
    ensures
        name@.len() + 1 <= old(target)@.len() <==> r is Ok,
        r is Ok ==> final(target)@ == with_c_str(old(target)@, name@),
        r is Err ==> final(target)@ == old(target)@ && r->Err_0 == (NameTooLarge {
            static_array_size: old(target)@.len() as usize,
            c_str_size: (name@.len() + 1) as usize,
        }),
{
    let static_array_size = target.len();
    if name.len() >= static_array_size {
        return Err(NameTooLarge { static_array_size, c_str_size: name.len() + 1 });
    }
    let mut i: usize = 0;
    while i < name.len()
        invariant
            name@.len() < target@.len() == static_array_size,
            static_array_size == old(target)@.len(),
            i <= name@.len(),
            forall|j: int| 0 <= j < i ==> target@[j] == name@[j],
            forall|j: int| i <= j < target@.len() ==> target@[j] == old(target)@[j],
        decreases name@.len() - i,
    {
        target[i] = name[i];
        i = i + 1;
    }
    target[i] = 0u8;
    assert(target@ =~= with_c_str(old(target)@, name@));
    Ok(())
}

/// The bytes of `buffer` before its first NUL; fails where it holds none.
pub fn wrap_c_str_slice_until_nul(buffer: &[u8]) -> (r: Result<&[u8], NulNotFound>)
    ensures
        match c_str_until_nul(buffer@) {
            Some(text) => r is Ok && r->Ok_0@ == text,
            None => r is Err,
        },
{
    let mut i: usize = 0;
    while i < buffer.len()
        invariant
            i <= buffer@.len(),
            forall|j: int| 0 <= j < i ==> buffer@[j] != 0u8,
        decreases buffer@.len() - i,
    {
        if buffer[i] == 0u8 {
            let (text, _) = buffer.split_at(i);
            proof {
                lemma_first_nul(buffer@, i as int);
            }
            return Ok(text);
        }
        i = i + 1;
    }
    assert(!buffer@.contains(0u8));
    Err(NulNotFound)
}

/// A name that fits a field with its terminator reads back unchanged from that
/// field once written, whatever the field held before.
pub proof fn lemma_name_round_trip(field: Seq<u8>, name: Seq<u8>)
    requires
        is_c_str(name),
        name.len() + 1 <= field.len(),
    ensures
        c_str_until_nul(with_c_str(field, name)) == Some(name),
{
    let written = with_c_str(field, name);
    assert(written[name.len() as int] == 0u8);
    assert forall|j: int| 0 <= j < name.len() implies written[j] != 0u8 by {
        assert(written[j] == name[j]);
        if name[j] == 0u8 {
            assert(name.contains(0u8));
        }
    }
    lemma_first_nul(written, name.len() as int);
    assert(written.subrange(0, name.len() as int) =~= name);
}

/// Where `i` holds the first NUL of `buffer`, it is what `index_of_first` finds.
proof fn lemma_first_nul(buffer: Seq<u8>, i: int)
    requires
        0 <= i < buffer.len(),
        buffer[i] == 0u8,
        forall|j: int| 0 <= j < i ==> buffer[j] != 0u8,
    ensures
        buffer.contains(0u8),
        buffer.index_of_first(0u8) == Some(i),
{
    buffer.index_of_first_ensures(0u8);
}


/// The text between two flag names.
pub open spec fn flag_separator() -> Seq<char> {
    seq![' ', '|', ' ']
}

/// The binary digits of `x`, most significant first, with no leading zero.
pub open spec fn binary_text(x: nat) -> Seq<char>
    decreases x,
{
    let digit = if x % 2 == 0 {
        '0'
    } else {
        '1'
    };
    if x < 2 {
        seq![digit]
    } else {
        binary_text(x / 2).push(digit)
    }
}

/// The first `n` entries of `known` applied to `value`: the text written so
/// far, whether it names no flag yet, and the bits of `value` not yet named. An
/// entry is named where its bits are nonzero and all still unnamed in `value`.
pub open spec fn scan_flags(known: Seq<(u64, &str)>, n: nat, value: u64) -> (Seq<char>, bool, u64)
    decreases n,
{
    if n == 0 {
        (Seq::empty(), true, value)
    } else {
        let (text, first, rest) = scan_flags(known, (n - 1) as nat, value);
        let (bit, name) = known[n - 1];
        if bit != 0 && rest & bit == bit {
            let lead = if first {
                text
            } else {
                text + flag_separator()
            };
            (lead + name@, false, rest & !bit)
        } else {
            (text, first, rest)
        }
    }
}

/// `value` written as the names of the `known` flags it holds, in the order of
/// `known`, separated by `" | "`, followed by the bits that none of them names
/// in binary.
pub open spec fn flags_text(known: Seq<(u64, &str)>, value: u64) -> Seq<char> {
    let (text, first, rest) = scan_flags(known, known.len(), value);
    if rest != 0 {
        let lead = if first {
            text
        } else {
            text + flag_separator()
        };
        lead + binary_text(rest as nat)
    } else {
        text
    }
}

/// Appends the binary digits of `x` to `out`.
fn push_binary(out: &mut String, x: u64)
    ensures
        final(out)@ == old(out)@ + binary_text(x as nat),
    decreases x,
{
    if x >= 2 {
        push_binary(out, x / 2);
    }
    if x % 2 == 0 {
        proof {
            reveal_strlit("0");
        }
        out.append("0");
    } else {
        proof {
            reveal_strlit("1");
        }
        out.append("1");
    }
    assert(out@ =~= old(out)@ + binary_text(x as nat));
}

/// Writes a bit mask as the names of the `known` flags it holds, followed by
/// its unnamed bits in binary: `"A | B | 1000"`.
pub fn debug_flags(known: &[(u64, &str)], value: u64) -> (r: String)
    ensures
        r@ == flags_text(known@, value),
{
    let mut out = String::new();
    let mut first = true;
    let mut rest = value;
    let mut i: usize = 0;
    proof {
        reveal_strlit(" | ");
    }
    while i < known.len()
        invariant
            i <= known@.len(),
            (out@, first, rest) == scan_flags(known@, i as nat, value),
            " | "@ == flag_separator(),
        decreases known@.len() - i,
    {
        let (bit, name) = known[i];
        if bit != 0 && rest & bit == bit {
            if !first {
                out.append(" | ");
            }
            out.append(name);
            first = false;
            rest = rest & !bit;
        }
        i = i + 1;
    }
    if rest != 0 {
        if !first {
            out.append(" | ");
        }
        push_binary(&mut out, rest);
    }
    out
}

} // verus!
