//! Compact JSON text, and the calls into `serde_json` that produce it.

use vstd::prelude::*;

verus! {

/// A lower-case hexadecimal digit.
pub open spec fn hex_digit(n: int) -> char {
    if n < 10 {
        ('0' as int + n) as char
    } else {
        ('a' as int + n - 10) as char
    }
}

/// How a character is written inside a JSON string.
pub open spec fn json_escape(c: char) -> Seq<char> {
    if c == '"' || c == '\\' {
        seq!['\\', c]
    } else if c == '\u{8}' {
        seq!['\\', 'b']
    } else if c == '\t' {
        seq!['\\', 't']
    } else if c == '\n' {
        seq!['\\', 'n']
    } else if c == '\u{c}' {
        seq!['\\', 'f']
    } else if c == '\r' {
        seq!['\\', 'r']
    } else if ' ' > c {
        seq!['\\', 'u', '0', '0', hex_digit(c as int / 16), hex_digit(c as int % 16)]
    } else {
        seq![c]
    }
}

/// The characters of `s`, each written as inside a JSON string.
pub open spec fn json_escaped(s: Seq<char>) -> Seq<char>
    decreases s.len(),
{
    if s.len() == 0 {
        Seq::empty()
    } else {
        json_escape(s[0]) + json_escaped(s.skip(1))
    }
}

/// `s` as a JSON string.
pub open spec fn json_string(s: Seq<char>) -> Seq<char> {
    seq!['"'] + json_escaped(s) + seq!['"']
}

/// A string that may be absent as a JSON value.
pub open spec fn json_optional(value: Option<Seq<char>>) -> Seq<char> {
    match value {
        Some(s) => json_string(s),
        None => seq!['n', 'u', 'l', 'l'],
    }
}

/// The members of an object with these keys, in this order, with commas between them.
pub open spec fn json_members(keys: Seq<Seq<char>>, members: Map<Seq<char>, Seq<char>>) -> Seq<char>
    decreases keys.len(),
{
    if keys.len() == 0 {
        Seq::empty()
    } else {
        let member = json_string(keys[0]) + seq![':'] + members[keys[0]];
        if keys.len() == 1 {
            member
        } else {
            member + seq![','] + json_members(keys.skip(1), members)
        }
    }
}

/// Whether `a` stands before `b` in the order of their characters.
pub open spec fn precedes(a: Seq<char>, b: Seq<char>) -> bool {
    exists|n: int| differs_at(a, b, n)
}

/// Whether `a` and `b` agree on their first `n` characters and `a` then ends, or goes on with
/// a smaller character than `b`.
pub open spec fn differs_at(a: Seq<char>, b: Seq<char>, n: int) -> bool {
    &&& 0 <= n <= a.len()
    &&& n < b.len()
    &&& forall|k: int| 0 <= k < n ==> a[k] == b[k]
    &&& n < a.len() ==> a[n] < b[n]
}

/// Whether `keys` lists the keys of `members`, each once, in ascending order.
pub open spec fn lists_keys(keys: Seq<Seq<char>>, members: Map<Seq<char>, Seq<char>>) -> bool {
    &&& forall|key: Seq<char>| keys.contains(key) <==> #[trigger] members.contains_key(key)
    &&& forall|i: int, j: int| 0 <= i < j < keys.len() ==> precedes(keys[i], keys[j])
}

/// A JSON value of any kind.
#[verifier::external_type_specification]
#[verifier::external_body]
pub struct ExJsonValue(serde_json::Value);

/// The members of a JSON object.
#[verifier::external_type_specification]
#[verifier::external_body]
#[verifier::reject_recursive_types(K)]
#[verifier::reject_recursive_types(V)]
pub struct ExJsonMap<K, V>(serde_json::Map<K, V>);

/// What an object holds: each of its keys with the compact JSON text of the value under it.
pub uninterp spec fn object_members(
    object: serde_json::Map<String, serde_json::Value>,
) -> Map<Seq<char>, Seq<char>>;

/// `serde_json::Map::new`: an object without members.
#[verifier::external_body]
pub(crate) fn new_object() -> (object: serde_json::Map<String, serde_json::Value>)
    ensures
        object_members(object).dom() == Set::<Seq<char>>::empty(),
{
    serde_json::Map::new()
}

/// `serde_json::Map::insert` of a `serde_json::Value` made from an optional string: the object
/// then holds `value` under `key`, as a JSON string, or as null where it is absent, in place of
/// what it held there; the other members stay.
#[verifier::external_body]
pub(crate) fn insert_member(
    object: &mut serde_json::Map<String, serde_json::Value>,
    key: String,
    value: Option<String>,
)
    ensures
        object_members(*final(object)) == object_members(*old(object)).insert(
            key@,
            json_optional(
                match value {
                    Some(s) => Some(s@),
                    None => None,
                },
            ),
        ),
{
    object.insert(key, serde_json::Value::from(value));
}

/// `serde_json::Value::to_string` of an object: its members in ascending order of their keys,
/// without white space. `serde_json` keeps them in that order unless its feature
/// `preserve_order` is on, which it is not here.
#[verifier::external_body]
pub(crate) fn object_text(object: serde_json::Map<String, serde_json::Value>) -> (text: String)
    ensures
        forall|keys: Seq<Seq<char>>| #[trigger]
            lists_keys(keys, object_members(object)) ==> text@ == seq!['{'] + json_members(
                keys,
                object_members(object),
            ) + seq!['}'],
{
    serde_json::Value::Object(object).to_string()
}

/// A string is escaped character by character: what is put together is escaped in its parts.
pub proof fn law_escaping_is_by_character(a: Seq<char>, b: Seq<char>)
    ensures
        json_escaped(a + b) == json_escaped(a) + json_escaped(b),
    decreases a.len(),
{
    if a.len() == 0 {
        assert(a + b =~= b);
        assert(json_escaped(a) + json_escaped(b) =~= json_escaped(b));
    } else {
        assert((a + b).skip(1) =~= a.skip(1) + b);
        law_escaping_is_by_character(a.skip(1), b);
        assert(json_escaped(a + b) =~= json_escaped(a) + json_escaped(b));
    }
}

/// How each character is escaped: quotes and backslashes behind a backslash, the control
/// characters that have a letter by it, the others by their number in hexadecimal, and every
/// other character as itself.
pub proof fn law_escapes(c: char)
    ensures
        c == '"' ==> json_escaped(seq![c]) == seq!['\\', '"'],
        c == '\\' ==> json_escaped(seq![c]) == seq!['\\', '\\'],
        c as int == 8 ==> json_escaped(seq![c]) == seq!['\\', 'b'],
        c as int == 9 ==> json_escaped(seq![c]) == seq!['\\', 't'],
        c as int == 10 ==> json_escaped(seq![c]) == seq!['\\', 'n'],
        c as int == 12 ==> json_escaped(seq![c]) == seq!['\\', 'f'],
        c as int == 13 ==> json_escaped(seq![c]) == seq!['\\', 'r'],
        c >= ' ' && c != '"' && c != '\\' ==> json_escaped(seq![c]) == seq![c],
        (c as int) < 32 && !(8 <= c as int <= 13 && c as int != 11) ==> {
            let e = json_escaped(seq![c]);
            let low = e[5] as int;
            &&& e.len() == 6
            &&& e.subrange(0, 4) == seq!['\\', 'u', '0', '0']
            &&& e[4] == '0' || e[4] == '1'
            &&& '0' <= e[5] <= '9' || 'a' <= e[5] <= 'f'
            &&& c as int == 16 * (e[4] as int - '0' as int) + (if e[5] <= '9' {
                low - '0' as int
            } else {
                low - 'a' as int + 10
            })
        },
{
    let s = seq![c];
    assert(s.skip(1) =~= Seq::empty());
    assert(json_escaped(s.skip(1)) =~= Seq::empty());
    assert(json_escaped(s) =~= json_escape(c));
    if (c as int) < 32 && !(8 <= c as int <= 13 && c as int != 11) {
        let e = json_escaped(s);
        assert(e.subrange(0, 4) =~= seq!['\\', 'u', '0', '0']);
    }
}

/// A string is written between quotes, and an absent one as null.
pub proof fn law_values(s: Seq<char>)
    ensures
        json_string(s) == "\""@ + json_escaped(s) + "\""@,
        json_optional(Some(s)) == "\""@ + json_escaped(s) + "\""@,
        json_optional(None) == "null"@,
        json_escaped(Seq::empty()) == Seq::<char>::empty(),
{
    reveal_strlit("\"");
    reveal_strlit("null");
    assert("\""@ =~= seq!['"']);
    assert("null"@ =~= seq!['n', 'u', 'l', 'l']);
}

/// The members of an object are written one by one: a member is its key, a colon and its value,
/// and what stands before and after is parted by a comma.
pub proof fn law_members_are_joined(
    key: Seq<char>,
    a: Seq<Seq<char>>,
    b: Seq<Seq<char>>,
    members: Map<Seq<char>, Seq<char>>,
)
    ensures
        json_members(Seq::empty(), members) == Seq::<char>::empty(),
        json_members(seq![key], members) == json_string(key) + seq![':'] + members[key],
        a.len() > 0 && b.len() > 0 ==> json_members(a + b, members) == json_members(a, members)
            + seq![','] + json_members(b, members),
    decreases a.len(),
{
    if a.len() > 0 && b.len() > 0 {
        let member = json_string(a[0]) + seq![':'] + members[a[0]];
        assert((a + b)[0] == a[0]);
        assert((a + b).skip(1) =~= a.skip(1) + b);
        if a.len() == 1 {
            assert(a.skip(1) + b =~= b);
        } else {
            law_members_are_joined(key, a.skip(1), b, members);
            let rest = json_members(a.skip(1), members);
            let others = json_members(b, members);
            assert(member + seq![','] + (rest + seq![','] + others) =~= member + seq![','] + rest
                + seq![','] + others);
        }
    }
}

/// Keys are ordered as in a dictionary: by the first character in which they differ, and one
/// that ends there comes first; no two stand before each other.
pub proof fn law_order_of_keys(
    common: Seq<char>,
    x: char,
    y: char,
    a: Seq<char>,
    b: Seq<char>,
)
    ensures
        precedes(common, common + seq![x] + a),
        x < y ==> precedes(common + seq![x] + a, common + seq![y] + b),
        !precedes(a, a),
        precedes(a, b) ==> !precedes(b, a),
{
    let n = common.len() as int;
    assert(differs_at(common, common + seq![x] + a, n));
    if x < y {
        assert(differs_at(common + seq![x] + a, common + seq![y] + b, n));
    }
    assert forall|k: int| !differs_at(a, a, k) by {}
    if precedes(a, b) && precedes(b, a) {
        let i = choose|i: int| differs_at(a, b, i);
        let j = choose|j: int| differs_at(b, a, j);
        if i < j {
            assert(b[i] == a[i]);
        } else if j < i {
            assert(a[j] == b[j]);
        }
        assert(false);
    }
}

/// A listing of keys holds every key once, each before the ones that come after it in order.
pub proof fn law_listing_of_keys(keys: Seq<Seq<char>>, members: Map<Seq<char>, Seq<char>>)
    ensures
        lists_keys(keys, members) ==> {
            &&& keys.no_duplicates()
            &&& keys.to_set() == members.dom()
            &&& forall|i: int, j: int|
                0 <= i < keys.len() && 0 <= j < keys.len() && #[trigger] precedes(keys[i], keys[j])
                    ==> i < j
        },
        keys.to_set() == members.dom() && (forall|i: int, j: int|
            0 <= i < j < keys.len() ==> #[trigger] precedes(keys[i], keys[j])) ==> lists_keys(
            keys,
            members,
        ),
{
    if lists_keys(keys, members) {
        assert forall|i: int, j: int| 0 <= i < j < keys.len() implies keys[i] != keys[j] by {
            assert(precedes(keys[i], keys[j]));
            law_order_of_keys(Seq::empty(), 'a', 'a', keys[i], keys[i]);
        }
        assert forall|i: int, j: int|
            0 <= i < keys.len() && 0 <= j < keys.len() && #[trigger] precedes(
                keys[i],
                keys[j],
            ) implies i < j by {
            law_order_of_keys(Seq::empty(), 'a', 'a', keys[i], keys[j]);
            if j < i {
                assert(precedes(keys[j], keys[i]));
            }
        }
        assert forall|key: Seq<char>| keys.to_set().contains(key) <==> members.dom().contains(
            key,
        ) by {
            assert(keys.contains(key) <==> members.contains_key(key));
        }
        assert(keys.to_set() =~= members.dom());
    }
    if keys.to_set() == members.dom() && (forall|i: int, j: int|
        0 <= i < j < keys.len() ==> #[trigger] precedes(keys[i], keys[j])) {
        assert forall|key: Seq<char>| keys.contains(key) <==> #[trigger] members.contains_key(
            key,
        ) by {
            assert(keys.to_set().contains(key) <==> members.dom().contains(key));
        }
    }
}

/// A string of printable characters without quotes and backslashes is written as it is.
pub proof fn lemma_plain_string(s: Seq<char>)
    requires
        forall|i: int| 0 <= i < s.len() ==> ' ' <= #[trigger] s[i] && s[i] != '"' && s[i] != '\\',
    ensures
        json_escaped(s) == s,
        json_string(s) == seq!['"'] + s + seq!['"'],
    decreases s.len(),
{
    if s.len() > 0 {
        lemma_plain_string(s.skip(1));
        assert(s =~= seq![s[0]] + s.skip(1));
    }
}

pub(crate) proof fn lemma_cancel(p: Seq<char>, x: Seq<char>, y: Seq<char>)
    requires
        p + x == p + y,
    ensures
        x == y,
{
    assert(x =~= (p + x).skip(p.len() as int));
    assert(y =~= (p + y).skip(p.len() as int));
}

/// The escapes of two characters that begin the same text are those of one character.
proof fn lemma_escape_prefix_free(a: char, b: char, x: Seq<char>, y: Seq<char>)
    requires
        json_escape(a) + x == json_escape(b) + y,
    ensures
        a == b,
        x == y,
{
    let ea = json_escape(a);
    let eb = json_escape(b);
    let t = ea + x;
    assert(t[0] == ea[0] && t[0] == eb[0]);
    if ea[0] == '\\' {
        assert(t[1] == ea[1] && t[1] == eb[1]);
        if ea[1] == 'u' {
            assert(t[4] == ea[4] && t[4] == eb[4]);
            assert(t[5] == ea[5] && t[5] == eb[5]);
            assert(a as int == 16 * (a as int / 16) + a as int % 16);
            assert(b as int == 16 * (b as int / 16) + b as int % 16);
        }
    }
    assert(a == b);
    lemma_cancel(ea, x, y);
}

proof fn lemma_escaped_decodable(a: Seq<char>, b: Seq<char>, x: Seq<char>, y: Seq<char>)
    requires
        json_escaped(a) + seq!['"'] + x == json_escaped(b) + seq!['"'] + y,
    ensures
        a == b,
        x == y,
    decreases a.len(),
{
    let ta = json_escaped(a) + seq!['"'] + x;
    let tb = json_escaped(b) + seq!['"'] + y;
    if a.len() == 0 {
        assert(ta[0] == '"');
        if b.len() > 0 {
            assert(tb[0] == json_escape(b[0])[0]);
            assert(false);
        }
        assert(a =~= b);
        lemma_cancel(seq!['"'], x, y);
    } else if b.len() == 0 {
        assert(tb[0] == '"');
        assert(ta[0] == json_escape(a[0])[0]);
        assert(false);
    } else {
        let ra = json_escaped(a.skip(1)) + seq!['"'] + x;
        let rb = json_escaped(b.skip(1)) + seq!['"'] + y;
        assert(ta =~= json_escape(a[0]) + ra);
        assert(tb =~= json_escape(b[0]) + rb);
        lemma_escape_prefix_free(a[0], b[0], ra, rb);
        lemma_escaped_decodable(a.skip(1), b.skip(1), x, y);
        assert(a =~= seq![a[0]] + a.skip(1));
        assert(b =~= seq![b[0]] + b.skip(1));
    }
}

/// A text that begins with an optional string in JSON begins with one only: a reader can tell
/// which string it is, or that it is absent, and where it ends.
pub proof fn law_optional_decodable(
    a: Option<Seq<char>>,
    b: Option<Seq<char>>,
    x: Seq<char>,
    y: Seq<char>,
)
    requires
        json_optional(a) + x == json_optional(b) + y,
    ensures
        a == b,
        x == y,
{
    let t = json_optional(a) + x;
    assert(t[0] == json_optional(a)[0]);
    assert(t[0] == json_optional(b)[0]);
    match (a, b) {
        (Some(s), Some(u)) => {
            assert(t =~= seq!['"'] + (json_escaped(s) + seq!['"'] + x));
            assert(t =~= seq!['"'] + (json_escaped(u) + seq!['"'] + y));
            lemma_cancel(
                seq!['"'],
                json_escaped(s) + seq!['"'] + x,
                json_escaped(u) + seq!['"'] + y,
            );
            lemma_escaped_decodable(s, u, x, y);
        },
        (None, None) => {
            lemma_cancel(json_optional(a), x, y);
        },
        _ => {},
    }
}

} // verus!
