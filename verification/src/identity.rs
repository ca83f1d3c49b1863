//! The identifier under which a visit is recorded.

use vstd::prelude::*;
use vstd::string::*;

verus! {

/// Whether `c` has the Unicode property `White_Space`.
pub open spec fn is_blank(c: char) -> bool {
    let n = c as u32;
    ||| 0x09 <= n <= 0x0D
    ||| n == 0x20
    ||| n == 0x85
    ||| n == 0xA0
    ||| n == 0x1680
    ||| 0x2000 <= n <= 0x200A
    ||| n == 0x2028
    ||| n == 0x2029
    ||| n == 0x202F
    ||| n == 0x205F
    ||| n == 0x3000
}

/// `s` without the blank characters it starts with.
pub open spec fn trim_front(s: Seq<char>) -> Seq<char>
    decreases s.len(),
{
    if s.len() > 0 && is_blank(s[0]) {
        trim_front(s.subrange(1, s.len() as int))
    } else {
        s
    }
}

/// `s` without the blank characters it ends with.
pub open spec fn trim_back(s: Seq<char>) -> Seq<char>
    decreases s.len(),
{
    if s.len() > 0 && is_blank(s[s.len() - 1]) {
        trim_back(s.subrange(0, s.len() - 1))
    } else {
        s
    }
}

/// `s` without surrounding blank characters.
pub open spec fn trimmed(s: Seq<char>) -> Seq<char> {
    trim_back(trim_front(s))
}

/// How many characters stand before the first comma of `s` (all of them,
/// where `s` has no comma).
pub open spec fn entry_len(s: Seq<char>) -> nat
    decreases s.len(),
{
    if s.len() == 0 || s[0] == ',' {
        0
    } else {
        1 + entry_len(s.subrange(1, s.len() as int))
    }
}

/// The first entry of a comma-separated list, as it stands.
pub open spec fn first_entry(s: Seq<char>) -> Seq<char> {
    s.subrange(0, entry_len(s) as int)
}

/// The text of the sentinel that stands for a caller nobody could name.
pub open spec fn unknown_identifier() -> Seq<char> {
    "Unknown IP"@
}

/// The identifier of a caller: the first entry of the forwarded-for header,
/// trimmed, where the header is present; else the peer address; else the
/// sentinel.
pub open spec fn identifier_of(forwarded_for: Option<Seq<char>>, peer: Option<Seq<char>>) -> Seq<
    char,
> {
    match forwarded_for {
        Some(header) => trimmed(first_entry(header)),
        None => match peer {
            Some(address) => address,
            None => unknown_identifier(),
        },
    }
}

/// The length of the first entry never exceeds that of the list.
pub proof fn entry_len_bounded(s: Seq<char>)
    ensures
        entry_len(s) <= s.len(),
        entry_len(s) < s.len() ==> s[entry_len(s) as int] == ',',
        forall|k: int| 0 <= k < entry_len(s) ==> s[k] != ',',
    decreases s.len(),
{
    if s.len() == 0 || s[0] == ',' {
    } else {
        let rest = s.subrange(1, s.len() as int);
        entry_len_bounded(rest);
        assert forall|k: int| 0 <= k < entry_len(s) implies s[k] != ',' by {
            if k > 0 {
                assert(s[k] == rest[k - 1]);
            }
        }
        if entry_len(s) < s.len() {
            assert(s[entry_len(s) as int] == rest[entry_len(rest) as int]);
        }
    }
}

/// What is left after trimming is a stretch of the text that neither starts
/// nor ends with a blank character.
pub proof fn trimmed_has_no_blank_edge(s: Seq<char>)
    ensures
        trimmed(s).len() > 0 ==> !is_blank(trimmed(s)[0]) && !is_blank(
            trimmed(s)[trimmed(s).len() - 1],
        ),
        exists|a: int, b: int| 0 <= a <= b <= s.len() && trimmed(s) == #[trigger] s.subrange(a, b),
{
    trim_front_is_suffix(s);
    let f = trim_front(s);
    trim_back_is_prefix(f);
    let a = s.len() - f.len();
    let b = a + trimmed(s).len();
    assert(trimmed(s) =~= s.subrange(a, b));
}

proof fn trim_front_is_suffix(s: Seq<char>)
    ensures
        trim_front(s).len() <= s.len(),
        trim_front(s) == s.subrange(s.len() - trim_front(s).len(), s.len() as int),
        trim_front(s).len() > 0 ==> !is_blank(trim_front(s)[0]),
    decreases s.len(),
{
    if s.len() > 0 && is_blank(s[0]) {
        let rest = s.subrange(1, s.len() as int);
        trim_front_is_suffix(rest);
        assert(trim_front(s) =~= s.subrange(s.len() - trim_front(s).len(), s.len() as int));
    } else {
        assert(s =~= s.subrange(0, s.len() as int));
    }
}

proof fn trim_back_is_prefix(s: Seq<char>)
    ensures
        trim_back(s).len() <= s.len(),
        trim_back(s) == s.subrange(0, trim_back(s).len() as int),
        trim_back(s).len() > 0 ==> !is_blank(trim_back(s)[trim_back(s).len() - 1]),
        trim_back(s).len() > 0 ==> trim_back(s)[0] == s[0],
    decreases s.len(),
{
    if s.len() > 0 && is_blank(s[s.len() - 1]) {
        let rest = s.subrange(0, s.len() - 1);
        trim_back_is_prefix(rest);
        assert(trim_back(s) =~= s.subrange(0, trim_back(s).len() as int));
    } else {
        assert(s =~= s.subrange(0, s.len() as int));
    }
}

/// Every character of `s` is blank.
pub open spec fn all_blank(s: Seq<char>) -> bool {
    forall|i: int| 0 <= i < s.len() ==> is_blank(#[trigger] s[i])
}

/// Where `first` holds no comma, it is the first entry of itself and of
/// every list that goes on after it with a comma.
pub proof fn first_entry_of_a_list(first: Seq<char>, rest: Seq<char>)
    requires
        !first.contains(','),
    ensures
        first_entry(first) == first,
        first_entry(first + seq![','] + rest) == first,
{
    let list = first + seq![','] + rest;
    entry_len_of_a_list(first, rest);
    assert(first.subrange(0, first.len() as int) =~= first);
    assert(list.subrange(0, first.len() as int) =~= first);
}

proof fn entry_len_of_a_list(first: Seq<char>, rest: Seq<char>)
    requires
        !first.contains(','),
    ensures
        entry_len(first) == first.len(),
        entry_len(first + seq![','] + rest) == first.len(),
    decreases first.len(),
{
    let list = first + seq![','] + rest;
    if first.len() == 0 {
        assert(list[0] == ',');
    } else {
        let shorter = first.subrange(1, first.len() as int);
        assert(first[0] != ',');
        assert(list[0] == first[0]);
        assert forall|i: int| 0 <= i < shorter.len() implies shorter[i] != ',' by {
            assert(shorter[i] == first[i + 1]);
        }
        entry_len_of_a_list(shorter, rest);
        assert(list.subrange(1, list.len() as int) =~= shorter + seq![','] + rest);
    }
}

/// Blank characters around a text that neither starts nor ends with one
/// are all that trimming takes away.
pub proof fn trimmed_drops_the_padding(left: Seq<char>, core: Seq<char>, right: Seq<char>)
    requires
        all_blank(left),
        all_blank(right),
        core.len() > 0 ==> !is_blank(core[0]) && !is_blank(core[core.len() - 1]),
    ensures
        trimmed(left + core + right) == core,
{
    let tail = core + right;
    assert(left + core + right =~= left + tail);
    if core.len() == 0 {
        assert(tail =~= right);
        trim_front_drops_blanks(left + tail, Seq::<char>::empty());
        assert(left + tail =~= left + tail + Seq::<char>::empty());
        assert(core =~= Seq::<char>::empty());
    } else {
        assert(tail[0] == core[0]);
        trim_front_drops_blanks(left, tail);
        trim_back_drops_blanks(core, right);
    }
}

proof fn trim_front_drops_blanks(pad: Seq<char>, text: Seq<char>)
    requires
        all_blank(pad),
        text.len() > 0 ==> !is_blank(text[0]),
    ensures
        trim_front(pad + text) == text,
    decreases pad.len(),
{
    let whole = pad + text;
    if pad.len() == 0 {
        assert(whole =~= text);
    } else {
        let shorter = pad.subrange(1, pad.len() as int);
        assert(whole[0] == pad[0]);
        assert forall|i: int| 0 <= i < shorter.len() implies is_blank(#[trigger] shorter[i]) by {
            assert(shorter[i] == pad[i + 1]);
        }
        trim_front_drops_blanks(shorter, text);
        assert(whole.subrange(1, whole.len() as int) =~= shorter + text);
    }
}

proof fn trim_back_drops_blanks(text: Seq<char>, pad: Seq<char>)
    requires
        all_blank(pad),
        text.len() > 0 ==> !is_blank(text[text.len() - 1]),
    ensures
        trim_back(text + pad) == text,
    decreases pad.len(),
{
    let whole = text + pad;
    if pad.len() == 0 {
        assert(whole =~= text);
    } else {
        let shorter = pad.subrange(0, pad.len() - 1);
        assert(whole[whole.len() - 1] == pad[pad.len() - 1]);
        assert forall|i: int| 0 <= i < shorter.len() implies is_blank(#[trigger] shorter[i]) by {
            assert(shorter[i] == pad[i]);
        }
        trim_back_drops_blanks(text, shorter);
        assert(whole.subrange(0, whole.len() - 1) =~= text + shorter);
    }
}

/// A forwarded-for header of several entries names the caller by its first
/// entry, without the blank characters around it, whatever the peer is.
pub proof fn header_names_its_first_entry(
    left: Seq<char>,
    core: Seq<char>,
    right: Seq<char>,
    rest: Seq<char>,
    peer: Option<Seq<char>>,
)
    requires
        all_blank(left),
        all_blank(right),
        !left.contains(','),
        !core.contains(','),
        !right.contains(','),
        core.len() > 0 ==> !is_blank(core[0]) && !is_blank(core[core.len() - 1]),
    ensures
        identifier_of(Some(left + core + right + seq![','] + rest), peer) == core,
        identifier_of(Some(left + core + right), peer) == core,
{
    let entry = left + core + right;
    assert forall|i: int| 0 <= i < entry.len() implies entry[i] != ',' by {
        if i < left.len() {
            assert(entry[i] == left[i]);
        } else if i < left.len() + core.len() {
            assert(entry[i] == core[i - left.len()]);
        } else {
            assert(entry[i] == right[i - left.len() - core.len()]);
        }
    }
    first_entry_of_a_list(entry, rest);
    trimmed_drops_the_padding(left, core, right);
}

/// Whether `c` is a blank character.
pub fn is_blank_char(c: char) -> (r: bool)
    ensures
        r == is_blank(c),
{
    let n: u32 = c as u32;
    (0x09 <= n && n <= 0x0D) || n == 0x20 || n == 0x85 || n == 0xA0 || n == 0x1680 || (0x2000 <= n
        && n <= 0x200A) || n == 0x2028 || n == 0x2029 || n == 0x202F || n == 0x205F || n == 0x3000
}

/// The first entry of a comma-separated header, without surrounding blank
/// characters.
pub fn first_forwarded(header: &str) -> (r: String)
    ensures
        r@ == trimmed(first_entry(header@)),
{
    let n: usize = header.unicode_len();
    let mut end: usize = 0;
    proof {
        assert(header@.subrange(0, n as int) =~= header@);
    }
    while end < n && header.get_char(end) != ','
        invariant
            end <= n,
            n == header@.len(),
            entry_len(header@) == end + entry_len(header@.subrange(end as int, n as int)),
        decreases n - end,
    {
        proof {
            let tail = header@.subrange(end as int, n as int);
            assert(tail[0] == header@[end as int]);
            assert(tail.subrange(1, tail.len() as int) =~= header@.subrange(end + 1, n as int));
        }
        end = end + 1;
    }
    proof {
        let tail = header@.subrange(end as int, n as int);
        if end < n {
            assert(tail[0] == header@[end as int]);
        }
        assert(entry_len(tail) == 0);
    }
    let ghost entry = first_entry(header@);
    let mut start: usize = 0;
    while start < end && is_blank_char(header.get_char(start))
        invariant
            start <= end <= n,
            n == header@.len(),
            entry == header@.subrange(0, end as int),
            trim_front(entry) == trim_front(header@.subrange(start as int, end as int)),
        decreases end - start,
    {
        proof {
            let part = header@.subrange(start as int, end as int);
            assert(part[0] == header@[start as int]);
            assert(part.subrange(1, part.len() as int) =~= header@.subrange(start + 1, end as int));
        }
        start = start + 1;
    }
    proof {
        let part = header@.subrange(start as int, end as int);
        if start < end {
            assert(part[0] == header@[start as int]);
        }
        assert(trim_front(part) == part);
    }
    let mut stop: usize = end;
    while start < stop && is_blank_char(header.get_char(stop - 1))
        invariant
            start <= stop <= end <= n,
            n == header@.len(),
            trimmed(entry) == trim_back(header@.subrange(start as int, stop as int)),
        decreases stop - start,
    {
        proof {
            let part = header@.subrange(start as int, stop as int);
            assert(part[part.len() - 1] == header@[stop - 1]);
            assert(part.subrange(0, part.len() - 1) =~= header@.subrange(start as int, stop - 1));
        }
        stop = stop - 1;
    }
    proof {
        let part = header@.subrange(start as int, stop as int);
        if start < stop {
            assert(part[part.len() - 1] == header@[stop - 1]);
        }
        assert(trim_back(part) == part);
    }
    header.substring_char(start, stop).to_owned()
}

/// The text of a header or an address, where there is one.
pub open spec fn text_of(value: Option<&str>) -> Option<Seq<char>> {
    match value {
        Some(text) => Some(text@),
        None => None,
    }
}

/// The identifier under which a request is recorded: the forwarded-for
/// header's first entry where the header is present, else the peer address,
/// else the sentinel.
pub fn client_identifier(forwarded_for: Option<&str>, peer: Option<&str>) -> (r: String)
    ensures
        r@ == identifier_of(text_of(forwarded_for), text_of(peer)),
{
    match forwarded_for {
        Some(header) => first_forwarded(header),
        None => match peer {
            Some(address) => address.to_owned(),
            None => "Unknown IP".to_owned(),
        },
    }
}

/// The identifier under which a request is recorded where the deployment
/// says whether the forwarded-for header can be believed: a header that is
/// not trusted counts as absent.
pub fn client_identifier_under(
    trust_forwarded: bool,
    forwarded_for: Option<&str>,
    peer: Option<&str>,
) -> (r: String)
    ensures
        trust_forwarded ==> r@ == identifier_of(text_of(forwarded_for), text_of(peer)),
        !trust_forwarded ==> r@ == identifier_of(None, text_of(peer)),
{
    if trust_forwarded {
        client_identifier(forwarded_for, peer)
    } else {
        client_identifier(None, peer)
    }
}

} // verus!
