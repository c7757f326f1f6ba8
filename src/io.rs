//! Reading the filter parameters from the words of a command line.
use vstd::prelude::*;

use crate::protocols::{parameter_views, Protocol};
use crate::{texts, ParameterView, Parameters};

verus! {

/// Whether a word starts with a dash, which ends the values of a flag.
pub open spec fn is_flag_start(t: Seq<char>) -> bool {
    t.len() > 0 && t[0] == '-'
}

/// Whether `c` is an ASCII decimal digit.
pub open spec fn is_digit(c: char) -> bool {
    '0' <= c && c <= '9'
}

/// The value of a string of decimal digits.
pub open spec fn digits_value(s: Seq<char>) -> nat
    decreases s.len(),
{
    if s.len() == 0 {
        0
    } else {
        digits_value(s.drop_last()) * 10 + (s.last() as int - '0' as int) as nat
    }
}

/// The port that `s` writes in decimal: an optional `+`, then one or more
/// digits whose value fits in 16 bits.
pub open spec fn decimal_u16(s: Seq<char>) -> Option<u16> {
    let digits = if s.len() > 0 && s[0] == '+' {
        s.drop_first()
    } else {
        s
    };
    if digits.len() > 0 && (forall|i: int| 0 <= i < digits.len() ==> is_digit(#[trigger] digits[i]))
        && digits_value(digits) <= u16::MAX {
        Some(digits_value(digits) as u16)
    } else {
        None
    }
}

/// The canonical text of the IP address that `s` writes, as `IpAddr`
/// parses and displays it; `None` when `s` is no address.
pub uninterp spec fn canonical_ip(s: Seq<char>) -> Option<Seq<char>>;

/// Relies on `u16`'s `FromStr`: an optional `+`, then one or more ASCII
/// digits whose value fits in 16 bits.
#[verifier::external_body]
fn parse_port(s: &str) -> (r: Option<u16>)
    ensures
        r == decimal_u16(s@),
{
    s.parse::<u16>().ok()
}

/// Relies on `IpAddr`'s `FromStr` and `to_string`: the canonical text of an
/// address is a function of the text it was read from.
#[verifier::external_body]
fn parse_ip(s: &str) -> (r: Option<String>)
    ensures
        match r {
            None => canonical_ip(s@) is None,
            Some(t) => canonical_ip(s@) == Some(t@),
        },
{
    match s.parse::<core::net::IpAddr>() {
        Ok(ip) => Some(ip.to_string()),
        Err(_) => None,
    }
}

/// The protocol that a word names.
pub open spec fn protocol_named(t: Seq<char>) -> Option<Protocol> {
    if t == "ipv4"@ {
        Some(Protocol::IPv4)
    } else if t == "ipv6"@ {
        Some(Protocol::IPv6)
    } else if t == "tcp"@ {
        Some(Protocol::TCP)
    } else if t == "udp"@ {
        Some(Protocol::UDP)
    } else {
        None
    }
}

/// The protocols that the words name, in order; other words are skipped.
pub open spec fn protocol_values(words: Seq<Seq<char>>) -> Seq<Protocol>
    decreases words.len(),
{
    if words.len() == 0 {
        Seq::empty()
    } else {
        let before = protocol_values(words.drop_last());
        match protocol_named(words.last()) {
            Some(p) => before.push(p),
            None => before,
        }
    }
}

/// The ports that the words write, in order; other words are skipped.
pub open spec fn port_values(words: Seq<Seq<char>>) -> Seq<u16>
    decreases words.len(),
{
    if words.len() == 0 {
        Seq::empty()
    } else {
        let before = port_values(words.drop_last());
        match decimal_u16(words.last()) {
            Some(p) => before.push(p),
            None => before,
        }
    }
}

/// The canonical addresses that the words write, in order; other words are
/// skipped.
pub open spec fn ip_values(words: Seq<Seq<char>>) -> Seq<Seq<char>>
    decreases words.len(),
{
    if words.len() == 0 {
        Seq::empty()
    } else {
        let before = ip_values(words.drop_last());
        match canonical_ip(words.last()) {
            Some(a) => before.push(a),
            None => before,
        }
    }
}

/// Where the values that start at `i` end: at the next word that starts
/// with a dash, or at the end of the words.
pub open spec fn group_end(args: Seq<Seq<char>>, i: int) -> int
    decreases args.len() - i,
{
    if i >= args.len() || is_flag_start(args[i]) {
        i
    } else {
        group_end(args, i + 1)
    }
}

/// The values of a group lie between its start and the end of the words.
pub proof fn lemma_group_end_bounds(args: Seq<Seq<char>>, i: int)
    ensures
        i <= group_end(args, i),
        i <= args.len() ==> group_end(args, i) <= args.len(),
    decreases args.len() - i,
{
    if !(i >= args.len() || is_flag_start(args[i])) {
        lemma_group_end_bounds(args, i + 1);
    }
}

/// Whether a word is the protocol flag.
pub open spec fn is_protocol_flag(t: Seq<char>) -> bool {
    t == "-p"@ || t == "--protocol"@
}

/// Whether a word is the address flag.
pub open spec fn is_ip_flag(t: Seq<char>) -> bool {
    t == "-i"@ || t == "--ip"@
}

/// Whether a word is the port flag.
pub open spec fn is_port_flag(t: Seq<char>) -> bool {
    t == "-pt"@ || t == "--port"@
}

/// The parameters that the words from `pos` on give: each flag takes the
/// words after it up to the next word that starts with a dash; any other
/// word is skipped.
pub open spec fn parameters_from(args: Seq<Seq<char>>, pos: int) -> Seq<ParameterView>
    decreases args.len() - pos,
{
    if pos < 0 || pos >= args.len() {
        Seq::empty()
    } else {
        proof {
            lemma_group_end_bounds(args, pos + 1);
        }
        let end = group_end(args, pos + 1);
        let values = args.subrange(pos + 1, end);
        if is_protocol_flag(args[pos]) {
            seq![ParameterView::Protocol(protocol_values(values))] + parameters_from(args, end)
        } else if is_ip_flag(args[pos]) {
            seq![ParameterView::IpAddress(ip_values(values))] + parameters_from(args, end)
        } else if is_port_flag(args[pos]) {
            seq![ParameterView::Port(port_values(values))] + parameters_from(args, end)
        } else {
            parameters_from(args, pos + 1)
        }
    }
}

/// Whether two texts are equal.
fn text_eq(a: &str, b: &str) -> (r: bool)
    ensures
        r == (a@ == b@),
{
    let n = a.unicode_len();
    if n != b.unicode_len() {
        return false;
    }
    let mut i: usize = 0;
    while i < n
        invariant
            n == a@.len(),
            n == b@.len(),
            0 <= i <= n,
            forall|j: int| 0 <= j < i ==> a@[j] == b@[j],
        decreases n - i,
    {
        if a.get_char(i) != b.get_char(i) {
            return false;
        }
        i += 1;
    }
    assert(a@ =~= b@);
    true
}

/// Whether a word starts with a dash.
fn starts_with_dash(t: &str) -> (r: bool)
    ensures
        r == is_flag_start(t@),
{
    t.unicode_len() > 0 && t.get_char(0) == '-'
}

/// Moves to the next word; whether there is one.
fn incr_and_not_exceed(position: &mut usize, args: &[String]) -> (r: bool)
    requires
        *old(position) < args@.len(),
    ensures
        *final(position) == *old(position) + 1,
        r == (*final(position) < args@.len()),
{
    let n = args.len();
    *position += 1;
    if *position >= args.len() {
        return false;
    }
    true
}

/// The words of `args` as texts.
pub open spec fn words(args: Seq<String>) -> Seq<Seq<char>> {
    texts(args)
}

/// The protocol that a word names.
fn protocol_of(t: &str) -> (r: Option<Protocol>)
    ensures
        r == protocol_named(t@),
{
    if text_eq(t, "ipv4") {
        Some(Protocol::IPv4)
    } else if text_eq(t, "ipv6") {
        Some(Protocol::IPv6)
    } else if text_eq(t, "tcp") {
        Some(Protocol::TCP)
    } else if text_eq(t, "udp") {
        Some(Protocol::UDP)
    } else {
        None
    }
}

/// Reads the protocols after the flag at `*position`, and leaves
/// `*position` at the end of them.
fn protocols_parse(args: &[String], position: &mut usize) -> (r: Vec<Protocol>)
    requires
        *old(position) < args@.len(),
    ensures
        *final(position) == group_end(words(args@), *old(position) + 1),
        r@ == protocol_values(words(args@).subrange(*old(position) + 1, *final(position) as int)),
{
    let ghost w = words(args@);
    let ghost start: int = *position as int + 1;
    let mut protocols: Vec<Protocol> = Vec::new();
    if !incr_and_not_exceed(position, args) {
        assert(w.subrange(start, start) =~= Seq::<Seq<char>>::empty());
        return protocols;
    }
    while !starts_with_dash(args[*position].as_str())
        invariant
            0 <= start <= *position < args@.len(),
            start == *old(position) + 1,
            w == words(args@),
            w.len() == args@.len(),
            group_end(w, start) == group_end(w, *position as int),
            protocols@ == protocol_values(w.subrange(start, *position as int)),
        decreases args@.len() - *position,
    {
        let ghost p = *position as int;
        assert(w.subrange(start, p + 1).drop_last() =~= w.subrange(start, p));
        assert(w[p] == args@[p]@);
        assert(group_end(w, p) == group_end(w, p + 1));
        match protocol_of(args[*position].as_str()) {
            Some(protocol) => protocols.push(protocol),
            None => {},
        }
        if !incr_and_not_exceed(position, args) {
            assert(group_end(w, p + 1) == p + 1);
            return protocols;
        }
    }
    assert(w[*position as int] == args@[*position as int]@);
    protocols
}

/// Reads the addresses after the flag at `*position`, and leaves
/// `*position` at the end of them.
fn ip_parse(args: &[String], position: &mut usize) -> (r: Vec<String>)
    requires
        *old(position) < args@.len(),
    ensures
        *final(position) == group_end(words(args@), *old(position) + 1),
        texts(r@) == ip_values(words(args@).subrange(*old(position) + 1, *final(position) as int)),
{
    let ghost w = words(args@);
    let ghost start: int = *position as int + 1;
    let mut ips: Vec<String> = Vec::new();
    if !incr_and_not_exceed(position, args) {
        assert(w.subrange(start, start) =~= Seq::<Seq<char>>::empty());
        assert(texts(ips@) =~= Seq::<Seq<char>>::empty());
        return ips;
    }
    assert(texts(ips@) =~= Seq::<Seq<char>>::empty());
    assert(w.subrange(start, start) =~= Seq::<Seq<char>>::empty());
    while !starts_with_dash(args[*position].as_str())
        invariant
            0 <= start <= *position < args@.len(),
            start == *old(position) + 1,
            w == words(args@),
            w.len() == args@.len(),
            group_end(w, start) == group_end(w, *position as int),
            texts(ips@) == ip_values(w.subrange(start, *position as int)),
        decreases args@.len() - *position,
    {
        let ghost p = *position as int;
        let ghost before = ips@;
        assert(w.subrange(start, p + 1).drop_last() =~= w.subrange(start, p));
        assert(w[p] == args@[p]@);
        assert(group_end(w, p) == group_end(w, p + 1));
        match parse_ip(args[*position].as_str()) {
            Some(ip) => {
                ips.push(ip);
                assert(texts(ips@) =~= texts(before).push(ips@.last()@));
            },
            None => {},
        }
        if !incr_and_not_exceed(position, args) {
            assert(group_end(w, p + 1) == p + 1);
            return ips;
        }
    }
    assert(w[*position as int] == args@[*position as int]@);
    ips
}

/// Reads the ports after the flag at `*position`, and leaves `*position` at
/// the end of them.
fn port_parse(args: &[String], position: &mut usize) -> (r: Vec<u16>)
    requires
        *old(position) < args@.len(),
    ensures
        *final(position) == group_end(words(args@), *old(position) + 1),
        r@ == port_values(words(args@).subrange(*old(position) + 1, *final(position) as int)),
{
    let ghost w = words(args@);
    let ghost start: int = *position as int + 1;
    let mut ports: Vec<u16> = Vec::new();
    if !incr_and_not_exceed(position, args) {
        assert(w.subrange(start, start) =~= Seq::<Seq<char>>::empty());
        return ports;
    }
    while !starts_with_dash(args[*position].as_str())
        invariant
            0 <= start <= *position < args@.len(),
            start == *old(position) + 1,
            w == words(args@),
            w.len() == args@.len(),
            group_end(w, start) == group_end(w, *position as int),
            ports@ == port_values(w.subrange(start, *position as int)),
        decreases args@.len() - *position,
    {
        let ghost p = *position as int;
        assert(w.subrange(start, p + 1).drop_last() =~= w.subrange(start, p));
        assert(w[p] == args@[p]@);
        assert(group_end(w, p) == group_end(w, p + 1));
        match parse_port(args[*position].as_str()) {
            Some(port) => ports.push(port),
            None => {},
        }
        if !incr_and_not_exceed(position, args) {
            assert(group_end(w, p + 1) == p + 1);
            return ports;
        }
    }
    assert(w[*position as int] == args@[*position as int]@);
    ports
}

/// Reads the filter parameters from the words of a command line. A flag
/// (`-p`/`--protocol`, `-i`/`--ip`, `-pt`/`--port`) takes the words after
/// it up to the next word that starts with a dash; values that do not read
/// as a protocol, an address or a port are left out, and any other word is
/// skipped.
pub fn interpret_parameters(args: &[String]) -> (r: Vec<Parameters>)
    ensures
        parameter_views(r@) == parameters_from(words(args@), 0),
{
    let ghost w = words(args@);
    let mut parameters: Vec<Parameters> = Vec::new();
    let mut position: usize = 0;
    assert(parameter_views(parameters@) =~= Seq::<ParameterView>::empty());
    while position < args.len()
        invariant
            position <= args@.len(),
            w == words(args@),
            w.len() == args@.len(),
            parameter_views(parameters@) + parameters_from(w, position as int) == parameters_from(w, 0),
        decreases args@.len() - position,
    {
        let ghost before = parameters@;
        let ghost pos = position as int;
        proof {
            lemma_group_end_bounds(w, pos + 1);
        }
        let word = args[position].as_str();
        assert(w[pos] == word@);
        if text_eq(word, "-p") || text_eq(word, "--protocol") {
            let values = protocols_parse(args, &mut position);
            let p = Parameters::Protocol(values);
            assert(parameter_views(before.push(p)) =~= parameter_views(before).push(p@));
            parameters.push(p);
        } else if text_eq(word, "-i") || text_eq(word, "--ip") {
            let values = ip_parse(args, &mut position);
            let p = Parameters::IpAddress(values);
            assert(parameter_views(before.push(p)) =~= parameter_views(before).push(p@));
            parameters.push(p);
        } else if text_eq(word, "-pt") || text_eq(word, "--port") {
            let values = port_parse(args, &mut position);
            let p = Parameters::Port(values);
            assert(parameter_views(before.push(p)) =~= parameter_views(before).push(p@));
            parameters.push(p);
        } else {
            position += 1;
        }
        assert(parameter_views(parameters@) + parameters_from(w, position as int) =~= parameters_from(w, 0));
    }
    assert(parameters_from(w, position as int) =~= Seq::<ParameterView>::empty());
    assert(parameter_views(parameters@) + Seq::<ParameterView>::empty() =~= parameter_views(parameters@));
    parameters
}

} // verus!
