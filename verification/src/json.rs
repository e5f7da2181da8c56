//! Compact JSON text, built from quoted strings, members, objects and arrays.
//!
//! The layout follows the one `serde_json::to_string` produces: no
//! whitespace, members joined by `,`, `:` between a key and its value.
use vstd::prelude::*;

verus! {

/// The error type of `serde_json`, declared so that its wrapper can hand it back.
#[verifier::external_type_specification]
#[verifier::external_body]
pub struct ExJsonError(serde_json::Error);

/// The lowercase hexadecimal digit `d`, for `0 <= d < 16`.
pub open spec fn hex_digit(d: int) -> char {
    seq!['0', '1', '2', '3', '4', '5', '6', '7', '8', '9', 'a', 'b', 'c', 'd', 'e', 'f'][d]
}

/// How one character is written inside a JSON string: `"` and `\` and the
/// control characters are escaped, the short forms where JSON has them and
/// `\u00XX` for the others; every other character stands for itself.
pub open spec fn escaped_char(c: char) -> Seq<char> {
    if c == '"' {
        seq!['\\', '"']
    } else if c == '\\' {
        seq!['\\', '\\']
    } else if c == '\x08' {
        seq!['\\', 'b']
    } else if c == '\t' {
        seq!['\\', 't']
    } else if c == '\n' {
        seq!['\\', 'n']
    } else if c == '\x0c' {
        seq!['\\', 'f']
    } else if c == '\r' {
        seq!['\\', 'r']
    } else if (c as int) < 0x20 {
        seq!['\\', 'u', '0', '0', hex_digit((c as int) / 16), hex_digit((c as int) % 16)]
    } else {
        seq![c]
    }
}

/// The characters of a string, each written as `escaped_char` writes it.
pub open spec fn escaped(s: Seq<char>) -> Seq<char>
    decreases s.len(),
{
    if s.len() == 0 {
        Seq::empty()
    } else {
        escaped_char(s[0]) + escaped(s.drop_first())
    }
}

/// A JSON string value: the escaped characters between double quotes.
pub open spec fn json_string_literal(s: Seq<char>) -> Seq<char> {
    seq!['"'] + escaped(s) + seq!['"']
}

/// Calls `serde_json::to_string` on a string slice.
///
/// Trusted: the result is `"`, then each character as `escaped_char` writes
/// it, then `"` (serde_json's `format_escaped_str` with its `ESCAPE` table
/// and lowercase hexadecimal digits). The call cannot fail on a `str`:
/// serde_json writes the string into a `Vec<u8>`, whose writer never
/// reports an error.
#[verifier::external_body]
fn serde_quote(s: &str) -> (r: Result<String, serde_json::Error>)
    ensures
        r is Ok,
        r matches Ok(t) ==> t@ == json_string_literal(s@),
{
    serde_json::to_string(s)
}

/// The JSON literal `null`.
pub open spec fn null_text() -> Seq<char> {
    seq!['n', 'u', 'l', 'l']
}

/// The JSON literals `true` and `false`.
pub open spec fn bool_text(b: bool) -> Seq<char> {
    if b {
        seq!['t', 'r', 'u', 'e']
    } else {
        seq!['f', 'a', 'l', 's', 'e']
    }
}

/// Texts joined by commas.
pub open spec fn comma_joined(items: Seq<Seq<char>>) -> Seq<char>
    decreases items.len(),
{
    if items.len() == 0 {
        Seq::empty()
    } else if items.len() == 1 {
        items[0]
    } else {
        comma_joined(items.drop_last()) + seq![','] + items.last()
    }
}

/// A JSON object whose members (each already `"key":value`) come in the given order.
pub open spec fn object_text(members: Seq<Seq<char>>) -> Seq<char> {
    seq!['{'] + comma_joined(members) + seq!['}']
}

/// A JSON array of the given element texts.
pub open spec fn array_text(items: Seq<Seq<char>>) -> Seq<char> {
    seq!['['] + comma_joined(items) + seq![']']
}

/// One object member: the quoted key, a colon, the value text.
pub open spec fn member_text(key: Seq<char>, value: Seq<char>) -> Seq<char> {
    json_string_literal(key) + seq![':'] + value
}

/// A string value, or `null`.
pub open spec fn opt_string_text(o: Option<String>) -> Seq<char> {
    match o {
        Some(s) => json_string_literal(s@),
        None => null_text(),
    }
}

/// The views of a vector of strings.
pub open spec fn string_views(v: Seq<String>) -> Seq<Seq<char>> {
    v.map_values(|s: String| s@)
}

/// An array of strings.
pub open spec fn string_array_text(v: Seq<String>) -> Seq<char> {
    array_text(v.map_values(|s: String| json_string_literal(s@)))
}

/// An array of strings, or `null`.
pub open spec fn opt_string_array_text(o: Option<Vec<String>>) -> Seq<char> {
    match o {
        Some(v) => string_array_text(v@),
        None => null_text(),
    }
}

/// The decimal digit `d`, for `0 <= d < 10`.
pub open spec fn digit_char(d: nat) -> char {
    seq!['0', '1', '2', '3', '4', '5', '6', '7', '8', '9'][d as int]
}

/// The decimal digits of `n`, most significant first, without leading zeros.
pub open spec fn decimal_digits(n: nat) -> Seq<char>
    decreases n,
{
    if n < 10 {
        seq![digit_char(n)]
    } else {
        decimal_digits(n / 10) + seq![digit_char(n % 10)]
    }
}

/// The JSON number text of an integer.
pub open spec fn integer_text(n: int) -> Seq<char> {
    if n < 0 {
        seq!['-'] + decimal_digits((-n) as nat)
    } else {
        decimal_digits(n as nat)
    }
}

/// The quoted, escaped form of a string.
pub fn quote(s: &str) -> (r: String)
    ensures
        r@ == json_string_literal(s@),
{
    serde_quote(s).unwrap()
}

/// `null`.
pub fn null() -> (r: String)
    ensures
        r@ == null_text(),
{
    proof {
        reveal_strlit("null");
    }
    String::from_str("null")
}

/// `true` or `false`.
pub fn boolean(b: bool) -> (r: String)
    ensures
        r@ == bool_text(b),
{
    proof {
        reveal_strlit("true");
        reveal_strlit("false");
    }
    if b {
        String::from_str("true")
    } else {
        String::from_str("false")
    }
}

/// A string value, or `null`.
pub fn optional_string(o: &Option<String>) -> (r: String)
    ensures
        r@ == opt_string_text(*o),
{
    match o {
        Some(s) => quote(s.as_str()),
        None => null(),
    }
}

/// An array of strings.
pub fn string_array(v: &Vec<String>) -> (r: String)
    ensures
        r@ == string_array_text(v@),
{
    let mut arr = JsonArray::new();
    let mut i: usize = 0;
    while i < v.len()
        invariant
            i <= v.len(),
            arr@ == v@.take(i as int).map_values(|s: String| json_string_literal(s@)),
        decreases v.len() - i,
    {
        arr.push(quote(v[i].as_str()));
        proof {
            assert(v@.take(i + 1).map_values(|s: String| json_string_literal(s@)) =~= v@.take(
                i as int,
            ).map_values(|s: String| json_string_literal(s@)).push(json_string_literal(v@[i as int]@)));
        }
        i += 1;
    }
    proof {
        assert(v@.take(v.len() as int) =~= v@);
    }
    arr.finish()
}

/// An array of strings, or `null`.
pub fn optional_string_array(o: &Option<Vec<String>>) -> (r: String)
    ensures
        r@ == opt_string_array_text(*o),
{
    match o {
        Some(v) => string_array(v),
        None => null(),
    }
}

/// The decimal digit `d` as a one-character string.
fn digit(d: u64) -> (r: &'static str)
    requires
        d < 10,
    ensures
        r@ == seq![digit_char(d as nat)],
{
    proof {
        reveal_strlit("0");
        reveal_strlit("1");
        reveal_strlit("2");
        reveal_strlit("3");
        reveal_strlit("4");
        reveal_strlit("5");
        reveal_strlit("6");
        reveal_strlit("7");
        reveal_strlit("8");
        reveal_strlit("9");
    }
    if d == 0 {
        "0"
    } else if d == 1 {
        "1"
    } else if d == 2 {
        "2"
    } else if d == 3 {
        "3"
    } else if d == 4 {
        "4"
    } else if d == 5 {
        "5"
    } else if d == 6 {
        "6"
    } else if d == 7 {
        "7"
    } else if d == 8 {
        "8"
    } else {
        "9"
    }
}

/// Appends the decimal digits of `n`.
fn append_digits(out: &mut String, n: u64)
    ensures
        final(out)@ == old(out)@ + decimal_digits(n as nat),
    decreases n,
{
    if n >= 10 {
        append_digits(out, n / 10);
        out.append(digit(n % 10));
    } else {
        out.append(digit(n));
    }
}

/// The JSON number text of a signed integer.
pub fn integer(n: i64) -> (r: String)
    ensures
        r@ == integer_text(n as int),
{
    let mut out = String::new();
    if n < 0 {
        proof {
            reveal_strlit("-");
        }
        out.append("-");
        let magnitude: u64 = ((-(n + 1)) as u64) + 1;
        append_digits(&mut out, magnitude);
    } else {
        append_digits(&mut out, n as u64);
    }
    out
}

/// Joins the texts of `items` with commas.
fn join_items(items: &Vec<String>) -> (r: String)
    ensures
        r@ == comma_joined(string_views(items@)),
{
    let ghost texts = string_views(items@);
    let mut r = String::new();
    let mut i: usize = 0;
    proof {
        reveal_strlit(",");
    }
    while i < items.len()
        invariant
            i <= items.len(),
            texts == string_views(items@),
            r@ == comma_joined(texts.take(i as int)),
        decreases items.len() - i,
    {
        let ghost before = r@;
        proof {
            reveal_strlit(",");
        }
        if i > 0 {
            r.append(",");
        }
        r.append(items[i].as_str());
        proof {
            assert(texts[i as int] == items@[i as int]@);
            assert(texts.take(i + 1).drop_last() =~= texts.take(i as int));
            assert(texts.take(i + 1).last() == texts[i as int]);
            if i == 0 {
                assert(before =~= Seq::<char>::empty());
                assert(r@ =~= texts.take(1)[0]);
            } else {
                assert(r@ == before + seq![','] + texts[i as int]);
            }
        }
        i += 1;
    }
    proof {
        assert(texts.take(items.len() as int) =~= texts);
    }
    r
}

/// A value with a JSON text.
pub trait JsonEncode {
    /// The JSON text of the value.
    spec fn json_text(&self) -> Seq<char>;

    /// Writes the JSON text of the value.
    fn to_json(&self) -> (r: String)
        ensures
            r@ == self.json_text(),
    ;
}

/// An array of encodable values.
pub open spec fn list_text<T: JsonEncode>(v: Seq<T>) -> Seq<char> {
    array_text(v.map_values(|x: T| x.json_text()))
}

/// An encodable value, or `null`.
pub open spec fn opt_text<T: JsonEncode>(o: Option<T>) -> Seq<char> {
    match o {
        Some(x) => x.json_text(),
        None => null_text(),
    }
}

/// An array of encodable values, or `null`.
pub open spec fn opt_list_text<T: JsonEncode>(o: Option<Vec<T>>) -> Seq<char> {
    match o {
        Some(v) => list_text(v@),
        None => null_text(),
    }
}

/// A boolean, or `null`.
pub open spec fn opt_bool_text(o: Option<bool>) -> Seq<char> {
    match o {
        Some(b) => bool_text(b),
        None => null_text(),
    }
}

/// An array of encodable values.
pub fn list<T: JsonEncode>(v: &Vec<T>) -> (r: String)
    ensures
        r@ == list_text(v@),
{
    let mut arr = JsonArray::new();
    let mut i: usize = 0;
    while i < v.len()
        invariant
            i <= v.len(),
            arr@ == v@.take(i as int).map_values(|x: T| x.json_text()),
        decreases v.len() - i,
    {
        arr.push(v[i].to_json());
        proof {
            assert(v@.take(i + 1).map_values(|x: T| x.json_text()) =~= v@.take(
                i as int,
            ).map_values(|x: T| x.json_text()).push(v@[i as int].json_text()));
        }
        i += 1;
    }
    proof {
        assert(v@.take(v.len() as int) =~= v@);
    }
    arr.finish()
}

/// An encodable value, or `null`.
pub fn optional<T: JsonEncode>(o: &Option<T>) -> (r: String)
    ensures
        r@ == opt_text(*o),
{
    match o {
        Some(x) => x.to_json(),
        None => null(),
    }
}

/// An array of encodable values, or `null`.
pub fn optional_list<T: JsonEncode>(o: &Option<Vec<T>>) -> (r: String)
    ensures
        r@ == opt_list_text(*o),
{
    match o {
        Some(v) => list(v),
        None => null(),
    }
}

/// A boolean, or `null`.
pub fn optional_bool(o: Option<bool>) -> (r: String)
    ensures
        r@ == opt_bool_text(o),
{
    match o {
        Some(b) => boolean(b),
        None => null(),
    }
}

/// A JSON object under construction: the texts of its members, in order.
pub struct JsonObject {
    members: Vec<String>,
}

impl View for JsonObject {
    type V = Seq<Seq<char>>;

    closed spec fn view(&self) -> Seq<Seq<char>> {
        string_views(self.members@)
    }
}

impl JsonObject {
    /// An object with no members.
    pub fn new() -> (r: JsonObject)
        ensures
            r@ == Seq::<Seq<char>>::empty(),
    {
        let r = JsonObject { members: Vec::new() };
        proof {
            assert(r@ =~= Seq::<Seq<char>>::empty());
        }
        r
    }

    /// Appends the member `"key":value`.
    pub fn add(&mut self, key: &str, value: String)
        ensures
            final(self)@ == old(self)@.push(member_text(key@, value@)),
    {
        proof {
            reveal_strlit(":");
        }
        let mut m = quote(key);
        m.append(":");
        m.append(value.as_str());
        assert(m@ == member_text(key@, value@));
        self.members.push(m);
        proof {
            assert(self.members@.last()@ == member_text(key@, value@));
            assert(string_views(self.members@) =~= string_views(old(self).members@).push(
                member_text(key@, value@),
            ));
        }
    }

    /// The text of the object.
    pub fn finish(&self) -> (r: String)
        ensures
            r@ == object_text(self@),
    {
        proof {
            reveal_strlit("{");
            reveal_strlit("}");
        }
        let mut r = String::from_str("{");
        let body = join_items(&self.members);
        r.append(body.as_str());
        r.append("}");
        r
    }
}

/// A JSON array under construction: the texts of its elements, in order.
pub struct JsonArray {
    items: Vec<String>,
}

impl View for JsonArray {
    type V = Seq<Seq<char>>;

    closed spec fn view(&self) -> Seq<Seq<char>> {
        string_views(self.items@)
    }
}

impl JsonArray {
    /// An array with no elements.
    pub fn new() -> (r: JsonArray)
        ensures
            r@ == Seq::<Seq<char>>::empty(),
    {
        let r = JsonArray { items: Vec::new() };
        proof {
            assert(r@ =~= Seq::<Seq<char>>::empty());
        }
        r
    }

    /// Appends an element text.
    pub fn push(&mut self, value: String)
        ensures
            final(self)@ == old(self)@.push(value@),
    {
        self.items.push(value);
        proof {
            assert(string_views(self.items@) =~= string_views(old(self).items@).push(value@));
        }
    }

    /// The text of the array.
    pub fn finish(&self) -> (r: String)
        ensures
            r@ == array_text(self@),
    {
        proof {
            reveal_strlit("[");
            reveal_strlit("]");
        }
        let mut r = String::from_str("[");
        let body = join_items(&self.items);
        r.append(body.as_str());
        r.append("]");
        r
    }
}

/// Two escaped characters that begin the same text are the same character.
pub proof fn lemma_escaped_char_prefix(x: char, y: char, p: Seq<char>, q: Seq<char>)
    requires
        escaped_char(x) + p == escaped_char(y) + q,
    ensures
        x == y,
        p == q,
{
    let ex = escaped_char(x);
    let ey = escaped_char(y);
    let t = ex + p;
    assert(t[0] == ex[0] && t[0] == ey[0]);
    if ex[0] != '\\' {
        assert(ey[0] != '\\');
        assert(ex.len() == 1 && ey.len() == 1);
    } else {
        assert(ey[0] == '\\');
        assert(ex.len() >= 2 && ey.len() >= 2);
        assert(t[1] == ex[1] && t[1] == ey[1]);
        if ex[1] == 'u' {
            assert(ex.len() == 6 && ey.len() == 6);
            assert(t[4] == ex[4] && t[4] == ey[4]);
            assert(t[5] == ex[5] && t[5] == ey[5]);
            assert((x as int) / 16 == (y as int) / 16);
            assert((x as int) % 16 == (y as int) % 16);
            assert(x as int == y as int);
        }
    }
    assert(ex == ey);
    assert(p =~= t.skip(ex.len() as int));
    assert(q =~= t.skip(ey.len() as int));
}

/// No escaped text begins with a double quote.
proof fn lemma_escaped_char_not_quote(c: char)
    ensures
        escaped_char(c).len() > 0,
        escaped_char(c)[0] != '"',
{
}

/// Escaped strings followed by a closing quote: the strings and what follows
/// the quotes agree.
proof fn lemma_escaped_prefix(a: Seq<char>, b: Seq<char>, x: Seq<char>, y: Seq<char>)
    requires
        x.len() > 0,
        y.len() > 0,
        x[0] == '"',
        y[0] == '"',
        escaped(a) + x == escaped(b) + y,
    ensures
        a == b,
        x == y,
    decreases a.len(),
{
    if a.len() == 0 {
        if b.len() > 0 {
            lemma_escaped_char_not_quote(b[0]);
            assert((escaped(b) + y)[0] == escaped_char(b[0])[0]);
            assert((escaped(a) + x)[0] == '"');
        }
        assert(escaped(a) =~= Seq::<char>::empty());
        assert(escaped(b) =~= Seq::<char>::empty());
        assert(x =~= escaped(a) + x);
        assert(y =~= escaped(b) + y);
    } else if b.len() == 0 {
        lemma_escaped_char_not_quote(a[0]);
        assert((escaped(a) + x)[0] == escaped_char(a[0])[0]);
        assert((escaped(b) + y)[0] == '"');
    } else {
        assert(escaped(a) + x =~= escaped_char(a[0]) + (escaped(a.drop_first()) + x));
        assert(escaped(b) + y =~= escaped_char(b[0]) + (escaped(b.drop_first()) + y));
        lemma_escaped_char_prefix(a[0], b[0], escaped(a.drop_first()) + x, escaped(b.drop_first()) + y);
        lemma_escaped_prefix(a.drop_first(), b.drop_first(), x, y);
        assert(a =~= seq![a[0]] + a.drop_first());
        assert(b =~= seq![b[0]] + b.drop_first());
    }
}

/// A JSON string value is never a prefix of another: if two texts that
/// begin with string values agree, so do the strings and the rest.
pub proof fn lemma_string_literal_prefix(a: Seq<char>, b: Seq<char>, x: Seq<char>, y: Seq<char>)
    requires
        json_string_literal(a) + x == json_string_literal(b) + y,
    ensures
        a == b,
        x == y,
{
    let ta = json_string_literal(a) + x;
    let tb = json_string_literal(b) + y;
    assert(ta.drop_first() =~= escaped(a) + (seq!['"'] + x));
    assert(tb.drop_first() =~= escaped(b) + (seq!['"'] + y));
    lemma_escaped_prefix(a, b, seq!['"'] + x, seq!['"'] + y);
    assert(x =~= (seq!['"'] + x).drop_first());
    assert(y =~= (seq!['"'] + y).drop_first());
}

/// Different strings are written as different string values.
pub proof fn lemma_string_literal_injective(a: Seq<char>, b: Seq<char>)
    ensures
        json_string_literal(a) == json_string_literal(b) ==> a == b,
{
    if json_string_literal(a) == json_string_literal(b) {
        assert(json_string_literal(a) + Seq::<char>::empty() =~= json_string_literal(b) + Seq::<char>::empty());
        lemma_string_literal_prefix(a, b, Seq::empty(), Seq::empty());
    }
}

/// A member text determines its key and its value.
pub proof fn lemma_member_text_injective(k1: Seq<char>, v1: Seq<char>, k2: Seq<char>, v2: Seq<char>)
    ensures
        member_text(k1, v1) == member_text(k2, v2) ==> k1 == k2 && v1 == v2,
{
    if member_text(k1, v1) == member_text(k2, v2) {
        assert(member_text(k1, v1) =~= json_string_literal(k1) + (seq![':'] + v1));
        assert(member_text(k2, v2) =~= json_string_literal(k2) + (seq![':'] + v2));
        lemma_string_literal_prefix(k1, k2, seq![':'] + v1, seq![':'] + v2);
        assert(v1 =~= (seq![':'] + v1).drop_first());
        assert(v2 =~= (seq![':'] + v2).drop_first());
    }
}

/// Object members built from key and value texts.
pub open spec fn members_of(fields: Seq<(Seq<char>, Seq<char>)>) -> Seq<Seq<char>> {
    fields.map_values(|f: (Seq<char>, Seq<char>)| member_text(f.0, f.1))
}

/// The keys of a list of fields.
pub open spec fn keys_of(fields: Seq<(Seq<char>, Seq<char>)>) -> Seq<Seq<char>> {
    fields.map_values(|f: (Seq<char>, Seq<char>)| f.0)
}

/// Some member of the list has the key `k`.
pub open spec fn has_member_keyed(members: Seq<Seq<char>>, k: Seq<char>) -> bool {
    exists|i: int, v: Seq<char>|
        #![trigger members[i], member_text(k, v)]
        0 <= i < members.len() && members[i] == member_text(k, v)
}

/// The members built from fields have a member keyed `k` exactly when `k` is
/// one of the field keys.
pub proof fn lemma_keyed_iff_key(fields: Seq<(Seq<char>, Seq<char>)>, k: Seq<char>)
    ensures
        has_member_keyed(members_of(fields), k) <==> keys_of(fields).contains(k),
{
    let m = members_of(fields);
    if has_member_keyed(m, k) {
        let (i, v) = choose|i: int, v: Seq<char>|
            #![trigger m[i], member_text(k, v)]
            0 <= i < m.len() && m[i] == member_text(k, v);
        lemma_member_text_injective(fields[i].0, fields[i].1, k, v);
        assert(keys_of(fields)[i] == k);
    }
    if keys_of(fields).contains(k) {
        let i = choose|i: int| 0 <= i < keys_of(fields).len() && keys_of(fields)[i] == k;
        assert(m[i] == member_text(k, fields[i].1));
    }
}

} // verus!
