use crate::instruction::{AccountMeta, ProposalInstruction, Response};
use crate::role::role_code;
use vstd::prelude::*;
use vstd::std_specs::iter::IteratorSpec;

verus! {

broadcast use {vstd::string::axiom_spec_iter, vstd::string::next_postcondition};

/// Two spaces per nesting level.
pub open spec fn indent(level: nat) -> Seq<char>
    decreases level,
{
    if level == 0 {
        Seq::empty()
    } else {
        indent((level - 1) as nat) + "  "@
    }
}

/// The decimal digit for `d < 10`.
pub open spec fn digit_char(d: nat) -> char {
    if d == 0 { '0' } else if d == 1 { '1' } else if d == 2 { '2' } else if d == 3 { '3' }
    else if d == 4 { '4' } else if d == 5 { '5' } else if d == 6 { '6' } else if d == 7 { '7' }
    else if d == 8 { '8' } else { '9' }
}

/// The lower-case hexadecimal digit for `d < 16`.
pub open spec fn hex_char(d: nat) -> char {
    if d < 10 { digit_char(d) } else if d == 10 { 'a' } else if d == 11 { 'b' } else if d == 12 { 'c' }
    else if d == 13 { 'd' } else if d == 14 { 'e' } else { 'f' }
}

/// Decimal text of a natural number, without leading zeros.
pub open spec fn decimal(n: nat) -> Seq<char>
    decreases n,
{
    if n < 10 {
        seq![digit_char(n)]
    } else {
        decimal(n / 10) + seq![digit_char(n % 10)]
    }
}

/// How one character stands inside a JSON string literal: quote, backslash and
/// control characters are escaped, everything else stands as it is.
pub open spec fn escape_char(c: char) -> Seq<char> {
    if c == '"' {
        "\\\""@
    } else if c == '\\' {
        "\\\\"@
    } else if c == '\n' {
        "\\n"@
    } else if c == '\r' {
        "\\r"@
    } else if c == '\t' {
        "\\t"@
    } else if c == '\x08' {
        "\\b"@
    } else if c == '\x0c' {
        "\\f"@
    } else if (c as u32) < 32 {
        "\\u00"@ + seq![hex_char((c as u32 / 16) as nat), hex_char((c as u32 % 16) as nat)]
    } else {
        seq![c]
    }
}

/// The escaped form of a whole text.
pub open spec fn escaped(s: Seq<char>) -> Seq<char>
    decreases s.len(),
{
    if s.len() == 0 {
        Seq::empty()
    } else {
        escaped(s.drop_last()) + escape_char(s.last())
    }
}

/// A JSON string literal.
#[verifier::opaque]
pub open spec fn json_string(s: Seq<char>) -> Seq<char> {
    "\""@ + escaped(s) + "\""@
}

/// What precedes the element at index `i` of an array or object at `level`.
#[verifier::opaque]
pub open spec fn element_prefix(i: int, level: nat) -> Seq<char> {
    (if i == 0 { Seq::empty() } else { ","@ }) + "\n"@ + indent(level + 1)
}

/// The elements of an array or object at `level`, each on a line of its own.
pub open spec fn json_elements(items: Seq<Seq<char>>, level: nat) -> Seq<char>
    decreases items.len(),
{
    if items.len() == 0 {
        Seq::empty()
    } else {
        json_elements(items.drop_last(), level) + element_prefix(items.len() - 1, level) + items.last()
    }
}

/// The line break and indentation before a closing bracket at `level`.
#[verifier::opaque]
pub open spec fn closing(level: nat) -> Seq<char> {
    "\n"@ + indent(level)
}

/// A JSON array at `level` holding `items`; an empty one is `[]`.
#[verifier::opaque]
pub open spec fn json_array(items: Seq<Seq<char>>, level: nat) -> Seq<char> {
    if items.len() == 0 {
        "[]"@
    } else {
        "["@ + json_elements(items, level) + closing(level) + "]"@
    }
}

/// One member of a JSON object: key, colon and value.
pub open spec fn json_member(key: Seq<char>, value: Seq<char>) -> Seq<char> {
    json_string(key) + ": "@ + value
}

/// A JSON object at `level` with the given members, in order.
#[verifier::opaque]
pub open spec fn json_object(members: Seq<Seq<char>>, level: nat) -> Seq<char> {
    "{"@ + json_elements(members, level) + closing(level) + "}"@
}

/// The bytes of a payload as JSON numbers.
pub open spec fn byte_items(data: Seq<u8>) -> Seq<Seq<char>> {
    Seq::new(data.len(), |i: int| decimal(data[i] as nat))
}

/// An account reference as a JSON object at `level`.
pub open spec fn account_json(a: AccountMeta, level: nat) -> Seq<char> {
    json_object(
        seq![
            json_member("address"@, json_string(a.address@)),
            json_member("role"@, decimal(role_code(a.role) as nat)),
        ],
        level,
    )
}

/// The account references as JSON objects at `level`.
pub open spec fn account_items(accounts: Seq<AccountMeta>, level: nat) -> Seq<Seq<char>> {
    Seq::new(accounts.len(), |i: int| account_json(accounts[i], level))
}

/// A proposal instruction as a JSON object at `level`.
pub open spec fn instruction_json(p: ProposalInstruction, level: nat) -> Seq<char> {
    json_object(
        seq![
            json_member("programAddress"@, json_string(p.program_address@)),
            json_member("accounts"@, json_array(account_items(p.accounts@, level + 2), level + 1)),
            json_member("data"@, json_array(byte_items(p.data@), level + 1)),
        ],
        level,
    )
}

/// The proposal instructions as JSON objects at `level`.
pub open spec fn instruction_items(ps: Seq<ProposalInstruction>, level: nat) -> Seq<Seq<char>> {
    Seq::new(ps.len(), |i: int| instruction_json(ps[i], level))
}

/// The pretty-printed JSON text of a response.
pub open spec fn response_json(r: Response) -> Seq<char> {
    json_object(
        seq![json_member("proposalInstructions"@, json_array(instruction_items(r.proposal_instructions@, 2), 1))],
        0,
    )
}

/// Relies on `String::push`: appends one character.
#[verifier::external_body]
fn push_char(out: &mut String, c: char)
    ensures
        final(out)@ == old(out)@.push(c),
{
    out.push(c)
}

/// Relies on `String::push_str`: appends a text.
#[verifier::external_body]
fn push_text(out: &mut String, t: &str)
    ensures
        final(out)@ == old(out)@ + t@,
{
    out.push_str(t)
}

/// Adding one item to a prefix of the items adds its prefix and the item.
proof fn lemma_elements_step(items: Seq<Seq<char>>, i: int, level: nat)
    requires
        0 <= i < items.len(),
    ensures
        json_elements(items.take(i + 1), level) == json_elements(items.take(i), level) + element_prefix(i, level)
            + items[i],
{
    assert(items.take(i + 1).drop_last() =~= items.take(i));
}

/// The text of a three-member object, spelled out.
proof fn lemma_object3(m0: Seq<char>, m1: Seq<char>, m2: Seq<char>, level: nat)
    ensures
        json_object(seq![m0, m1, m2], level) == "{"@ + element_prefix(0, level) + m0 + element_prefix(1, level) + m1
            + element_prefix(2, level) + m2 + closing(level) + "}"@,
{
    reveal(json_object);
    reveal_with_fuel(json_elements, 4);
    let ms = seq![m0, m1, m2];
    assert(ms.drop_last() =~= seq![m0, m1]);
    assert(seq![m0, m1].drop_last() =~= seq![m0]);
    assert(seq![m0].drop_last() =~= Seq::<Seq<char>>::empty());
    assert(json_elements(seq![m0], level) =~= element_prefix(0, level) + m0);
    assert(json_object(ms, level) =~= "{"@ + element_prefix(0, level) + m0 + element_prefix(1, level) + m1
        + element_prefix(2, level) + m2 + closing(level) + "}"@);
}

fn push_indent(out: &mut String, level: usize)
    ensures
        final(out)@ == old(out)@ + indent(level as nat),
{
    let mut k: usize = 0;
    while k < level
        invariant
            k <= level,
            out@ == old(out)@ + indent(k as nat),
        decreases level - k,
    {
        push_text(out, "  ");
        assert(indent((k + 1) as nat) == indent(k as nat) + "  "@);
        k = k + 1;
    }
}

fn digit(d: u8) -> (c: char)
    requires
        d < 10,
    ensures
        c == digit_char(d as nat),
{
    if d == 0 { '0' } else if d == 1 { '1' } else if d == 2 { '2' } else if d == 3 { '3' }
    else if d == 4 { '4' } else if d == 5 { '5' } else if d == 6 { '6' } else if d == 7 { '7' }
    else if d == 8 { '8' } else { '9' }
}

fn hex_digit(d: u32) -> (c: char)
    requires
        d < 16,
    ensures
        c == hex_char(d as nat),
{
    if d < 10 { digit(d as u8) } else if d == 10 { 'a' } else if d == 11 { 'b' } else if d == 12 { 'c' }
    else if d == 13 { 'd' } else if d == 14 { 'e' } else { 'f' }
}

fn push_decimal(out: &mut String, n: u8)
    ensures
        final(out)@ == old(out)@ + decimal(n as nat),
{
    let ghost start = out@;
    if n >= 100 {
        push_char(out, digit(n / 100));
    }
    if n >= 10 {
        push_char(out, digit(n / 10 % 10));
    }
    push_char(out, digit(n % 10));
    proof {
        let m = n as nat;
        if m >= 100 {
            assert(m / 10 / 10 == m / 100) by (nonlinear_arith);
            assert(m / 10 >= 10);
            assert(decimal(m / 10) == decimal(m / 100) + seq![digit_char(m / 10 % 10)]);
            assert(decimal(m / 100) == seq![digit_char(m / 100)]);
        } else if m >= 10 {
            assert(decimal(m / 10) == seq![digit_char(m / 10)]);
            assert(m / 10 % 10 == m / 10);
        }
        assert(out@ =~= start + decimal(m));
    }
}

fn push_escaped_char(out: &mut String, c: char)
    ensures
        final(out)@ == old(out)@ + escape_char(c),
{
    if c == '"' {
        push_text(out, "\\\"");
    } else if c == '\\' {
        push_text(out, "\\\\");
    } else if c == '\n' {
        push_text(out, "\\n");
    } else if c == '\r' {
        push_text(out, "\\r");
    } else if c == '\t' {
        push_text(out, "\\t");
    } else if c == '\x08' {
        push_text(out, "\\b");
    } else if c == '\x0c' {
        push_text(out, "\\f");
    } else if (c as u32) < 32 {
        let ghost start = out@;
        push_text(out, "\\u00");
        push_char(out, hex_digit(c as u32 / 16));
        push_char(out, hex_digit(c as u32 % 16));
        assert(out@ =~= start + escape_char(c));
    } else {
        let ghost start = out@;
        push_char(out, c);
        assert(out@ =~= start + escape_char(c));
    }
}

fn push_json_string(out: &mut String, s: &str)
    ensures
        final(out)@ == old(out)@ + json_string(s@),
{
    push_text(out, "\"");
    let ghost start = out@;
    let ghost mut done: Seq<char> = Seq::empty();
    let mut it = s.chars();
    loop
        invariant
            done + it.remaining() == s@,
            out@ == start + escaped(done),
        ensures
            done == s@,
            out@ == start + escaped(done),
        decreases s@.len() - done.len(),
    {
        match it.next() {
            Some(c) => {
                push_escaped_char(out, c);
                proof {
                    assert(done.push(c).drop_last() =~= done);
                    done = done.push(c);
                }
            },
            None => {
                assert(done =~= s@);
                break;
            },
        }
    }
    push_text(out, "\"");
    reveal(json_string);
    assert(out@ =~= old(out)@ + json_string(s@));
}

fn push_element_start(out: &mut String, i: usize, level: usize)
    requires
        level < 64,
    ensures
        final(out)@ == old(out)@ + element_prefix(i as int, level as nat),
{
    let ghost start = out@;
    if i > 0 {
        push_text(out, ",");
    }
    push_text(out, "\n");
    push_indent(out, level + 1);
    reveal(element_prefix);
    assert(out@ =~= start + element_prefix(i as int, level as nat));
}

fn push_member_start(out: &mut String, i: usize, level: usize, key: &str)
    requires
        level < 64,
    ensures
        final(out)@ == old(out)@ + element_prefix(i as int, level as nat) + json_string(key@) + ": "@,
{
    push_element_start(out, i, level);
    push_json_string(out, key);
    push_text(out, ": ");
}

fn push_closing(out: &mut String, level: usize, bracket: &str)
    ensures
        final(out)@ == old(out)@ + closing(level as nat) + bracket@,
{
    let ghost start = out@;
    push_text(out, "\n");
    push_indent(out, level);
    push_text(out, bracket);
    reveal(closing);
    assert(out@ =~= start + closing(level as nat) + bracket@);
}

fn push_byte_array(out: &mut String, data: &Vec<u8>, level: usize)
    requires
        level < 64,
    ensures
        final(out)@ == old(out)@ + json_array(byte_items(data@), level as nat),
{
    let ghost items = byte_items(data@);
    reveal(json_array);
    if data.len() == 0 {
        push_text(out, "[]");
        return;
    }
    let ghost start = out@;
    push_text(out, "[");
    let mut i: usize = 0;
    assert(items.take(0) =~= Seq::<Seq<char>>::empty());
    while i < data.len()
        invariant
            level < 64,
            i <= data@.len(),
            items == byte_items(data@),
            out@ == start + "["@ + json_elements(items.take(i as int), level as nat),
        decreases data@.len() - i,
    {
        let ghost before = out@;
        push_element_start(out, i, level);
        push_decimal(out, data[i]);
        proof {
            lemma_elements_step(items, i as int, level as nat);
            assert(out@ =~= before + element_prefix(i as int, level as nat) + items[i as int]);
        }
        i = i + 1;
    }
    assert(items.take(data@.len() as int) =~= items);
    push_closing(out, level, "]");
    assert(out@ =~= start + json_array(items, level as nat));
}

fn push_account(out: &mut String, a: &AccountMeta, level: usize)
    requires
        level < 64,
    ensures
        final(out)@ == old(out)@ + account_json(*a, level as nat),
{
    let ghost members = seq![
        json_member("address"@, json_string(a.address@)),
        json_member("role"@, decimal(role_code(a.role) as nat)),
    ];
    let ghost start = out@;
    push_text(out, "{");
    assert(members.take(0) =~= Seq::<Seq<char>>::empty());
    push_member_start(out, 0, level, "address");
    push_json_string(out, a.address.as_str());
    proof {
        lemma_elements_step(members, 0, level as nat);
        assert(out@ =~= start + "{"@ + json_elements(members.take(1), level as nat));
    }
    push_member_start(out, 1, level, "role");
    push_decimal(out, a.role.code());
    proof {
        lemma_elements_step(members, 1, level as nat);
        assert(members.take(2) =~= members);
        assert(out@ =~= start + "{"@ + json_elements(members, level as nat));
    }
    push_closing(out, level, "}");
    reveal(json_object);
    assert(out@ =~= start + account_json(*a, level as nat));
}

fn push_account_array(out: &mut String, accounts: &Vec<AccountMeta>, level: usize)
    requires
        level < 63,
    ensures
        final(out)@ == old(out)@ + json_array(account_items(accounts@, (level + 1) as nat), level as nat),
{
    let ghost items = account_items(accounts@, (level + 1) as nat);
    reveal(json_array);
    if accounts.len() == 0 {
        push_text(out, "[]");
        return;
    }
    let ghost start = out@;
    push_text(out, "[");
    let mut i: usize = 0;
    assert(items.take(0) =~= Seq::<Seq<char>>::empty());
    while i < accounts.len()
        invariant
            level < 63,
            i <= accounts@.len(),
            items == account_items(accounts@, (level + 1) as nat),
            out@ == start + "["@ + json_elements(items.take(i as int), level as nat),
        decreases accounts@.len() - i,
    {
        let ghost before = out@;
        push_element_start(out, i, level);
        push_account(out, &accounts[i], level + 1);
        proof {
            lemma_elements_step(items, i as int, level as nat);
            assert(out@ =~= before + element_prefix(i as int, level as nat) + items[i as int]);
        }
        i = i + 1;
    }
    assert(items.take(accounts@.len() as int) =~= items);
    push_closing(out, level, "]");
    assert(out@ =~= start + json_array(items, level as nat));
}

fn push_instruction(out: &mut String, p: &ProposalInstruction, level: usize)
    requires
        level < 60,
    ensures
        final(out)@ == old(out)@ + instruction_json(*p, level as nat),
{
    let ghost start = out@;
    let ghost m0 = json_member("programAddress"@, json_string(p.program_address@));
    let ghost m1 = json_member("accounts"@, json_array(account_items(p.accounts@, (level + 2) as nat), (level + 1) as nat));
    let ghost m2 = json_member("data"@, json_array(byte_items(p.data@), (level + 1) as nat));
    push_text(out, "{");
    let ghost s0 = out@;
    push_member_start(out, 0, level, "programAddress");
    push_json_string(out, p.program_address.as_str());
    assert(out@ =~= s0 + element_prefix(0, level as nat) + m0);
    let ghost s1 = out@;
    push_member_start(out, 1, level, "accounts");
    push_account_array(out, &p.accounts, level + 1);
    assert(out@ =~= s1 + element_prefix(1, level as nat) + m1);
    let ghost s2 = out@;
    push_member_start(out, 2, level, "data");
    push_byte_array(out, &p.data, level + 1);
    assert(out@ =~= s2 + element_prefix(2, level as nat) + m2);
    let ghost s3 = out@;
    push_closing(out, level, "}");
    proof {
        lemma_object3(m0, m1, m2, level as nat);
        assert(out@ =~= start + ("{"@ + element_prefix(0, level as nat) + m0 + element_prefix(1, level as nat) + m1
            + element_prefix(2, level as nat) + m2 + closing(level as nat) + "}"@));
    }
}

fn push_instruction_array(out: &mut String, ps: &Vec<ProposalInstruction>, level: usize)
    requires
        level < 59,
    ensures
        final(out)@ == old(out)@ + json_array(instruction_items(ps@, (level + 1) as nat), level as nat),
{
    let ghost items = instruction_items(ps@, (level + 1) as nat);
    reveal(json_array);
    if ps.len() == 0 {
        push_text(out, "[]");
        return;
    }
    let ghost start = out@;
    push_text(out, "[");
    let mut i: usize = 0;
    assert(items.take(0) =~= Seq::<Seq<char>>::empty());
    while i < ps.len()
        invariant
            level < 59,
            i <= ps@.len(),
            items == instruction_items(ps@, (level + 1) as nat),
            out@ == start + "["@ + json_elements(items.take(i as int), level as nat),
        decreases ps@.len() - i,
    {
        let ghost before = out@;
        push_element_start(out, i, level);
        push_instruction(out, &ps[i], level + 1);
        proof {
            lemma_elements_step(items, i as int, level as nat);
            assert(out@ =~= before + element_prefix(i as int, level as nat) + items[i as int]);
        }
        i = i + 1;
    }
    assert(items.take(ps@.len() as int) =~= items);
    push_closing(out, level, "]");
    assert(out@ =~= start + json_array(items, level as nat));
}

impl Response {
    /// Serializes the response as pretty-printed JSON text: two-space
    /// indentation, camel-case keys, roles as their numeric codes and the
    /// payload as an array of byte values.
    pub fn to_output_ix(&self) -> (r: String)
        ensures
            r@ == response_json(*self),
    {
        let ghost members = seq![
            json_member("proposalInstructions"@, json_array(instruction_items(self.proposal_instructions@, 2), 1)),
        ];
        let mut out = String::new();
        push_text(&mut out, "{");
        assert(members.take(0) =~= Seq::<Seq<char>>::empty());
        push_member_start(&mut out, 0, 0, "proposalInstructions");
        push_instruction_array(&mut out, &self.proposal_instructions, 1);
        proof {
            lemma_elements_step(members, 0, 0);
            assert(members.take(1) =~= members);
            assert(out@ =~= "{"@ + json_elements(members, 0));
        }
        push_closing(&mut out, 0, "}");
        reveal(json_object);
        assert(out@ =~= response_json(*self));
        out
    }
}

} // verus!
