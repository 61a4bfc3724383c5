//! The address that a batch is posted to.
use url::form_urlencoded::byte_serialize;
use uuid::Uuid;
use vstd::prelude::*;
use vstd::string::StringExecFns;
use vstd::utf8::encode_utf8;

use crate::text::{decimal, decimal_string, lemma_decimal_spells_the_number, spells_number};

verus! {

/// A byte that the form encoding leaves as it is.
pub open spec fn is_unreserved(b: u8) -> bool {
    ||| 0x30 <= b <= 0x39
    ||| 0x41 <= b <= 0x5a
    ||| 0x61 <= b <= 0x7a
    ||| b == 0x2a
    ||| b == 0x2d
    ||| b == 0x2e
    ||| b == 0x5f
}

/// One uppercase hexadecimal digit.
pub open spec fn upper_hex_char(d: u8) -> char {
    if d < 10 {
        (48 + d) as u8 as char
    } else {
        (55 + d) as u8 as char
    }
}

/// How the form encoding writes one byte.
pub open spec fn form_encoded_byte(b: u8) -> Seq<char> {
    if is_unreserved(b) {
        seq![b as char]
    } else if b == 0x20 {
        seq!['+']
    } else {
        seq!['%', upper_hex_char(b / 16), upper_hex_char(b % 16)]
    }
}

/// The form encoding of a run of bytes.
pub open spec fn form_encoded(bytes: Seq<u8>) -> Seq<char>
    decreases bytes.len(),
{
    if bytes.len() == 0 {
        Seq::empty()
    } else {
        form_encoded_byte(bytes[0]) + form_encoded(bytes.skip(1))
    }
}

/// `url::form_urlencoded::byte_serialize`, its pieces joined: letters, digits and `*-._` stay, a
/// space becomes a plus sign, and any other byte a percent sign with two uppercase hexadecimal
/// digits.
#[verifier::external_body]
fn form_encode(bytes: &[u8]) -> (r: String)
    ensures
        r@ == form_encoded(bytes@),
{
    byte_serialize(bytes).collect()
}

/// The form of a random (version 4) UUID as text: 36 characters, hyphens after the first 8, 12, 16
/// and 20 hexadecimal digits, all in lower case, with `4` for the version and one of `89ab` for the
/// variant.
pub open spec fn is_uuid_v4(id: Seq<char>) -> bool {
    &&& id.len() == 36
    &&& forall|i: int|
        0 <= i < 36 ==> if i == 8 || i == 13 || i == 18 || i == 23 {
            #[trigger] id[i] == '-'
        } else {
            '0' <= id[i] <= '9' || 'a' <= id[i] <= 'f'
        }
    &&& id[14] == '4'
    &&& id[19] == '8' || id[19] == '9' || id[19] == 'a' || id[19] == 'b'
}

/// `Uuid::new_v4` as text. Which one it is, is left to chance; its form is not. The call panics if
/// the system has no random numbers to give.
#[verifier::external_body]
pub(crate) fn random_uuid() -> (r: String)
    ensures
        is_uuid_v4(r@),
{
    Uuid::new_v4().to_string()
}

/// The lowest level of the events in a batch, as the gateway is told it.
pub const MIN_LEVEL: u64 = 2;

/// The values of an upload address, as texts and numbers.
pub ghost struct AddressText {
    pub monitoring_endpoint: Seq<char>,
    pub moniker: Seq<char>,
    pub namespace: Seq<char>,
    pub event_name: Seq<char>,
    pub version: Seq<char>,
    pub source_unique_id: Seq<char>,
    pub source_identity: Seq<char>,
    pub start_time: Seq<char>,
    pub end_time: Seq<char>,
    pub data_size: nat,
    pub schema_ids: Seq<char>,
    pub row_count: nat,
}

/// The values of an upload address.
pub struct Address<'a> {
    pub monitoring_endpoint: &'a str,
    pub moniker: &'a str,
    pub namespace: &'a str,
    pub event_name: &'a str,
    pub version: &'a str,
    pub source_unique_id: &'a str,
    pub source_identity: &'a str,
    pub start_time: &'a str,
    pub end_time: &'a str,
    pub data_size: usize,
    pub schema_ids: &'a str,
    pub row_count: usize,
}

impl<'a> View for Address<'a> {
    type V = AddressText;

    open spec fn view(&self) -> AddressText {
        AddressText {
            monitoring_endpoint: self.monitoring_endpoint@,
            moniker: self.moniker@,
            namespace: self.namespace@,
            event_name: self.event_name@,
            version: self.version@,
            source_unique_id: self.source_unique_id@,
            source_identity: self.source_identity@,
            start_time: self.start_time@,
            end_time: self.end_time@,
            data_size: self.data_size as nat,
            schema_ids: self.schema_ids@,
            row_count: self.row_count as nat,
        }
    }
}

/// The part of every upload address before the first value.
pub open spec fn address_start() -> Seq<char> {
    "api/v1/ingestion/ingest?endpoint="@
}

impl AddressText {
    /// The part of the address before the source identity.
    pub open spec fn before_identity(self) -> Seq<char> {
        address_start() + form_encoded(encode_utf8(self.monitoring_endpoint)) + "&moniker="@
            + self.moniker + "&namespace="@ + self.namespace + "&event="@ + self.event_name
            + "&version="@ + self.version + "&sourceUniqueId="@ + self.source_unique_id
            + "&sourceIdentity="@
    }

    /// The address. The monitoring endpoint and the source identity are form-encoded; the other
    /// values stand as they are.
    pub open spec fn uri(self) -> Seq<char> {
        self.before_identity() + form_encoded(encode_utf8(self.source_identity)) + "&startTime="@
            + self.start_time + "&endTime="@ + self.end_time
            + "&format=centralbond/lz4hc&dataSize="@ + decimal(self.data_size) + "&minLevel="@
            + decimal(MIN_LEVEL as nat) + "&schemaIds="@ + self.schema_ids + "&rowCount="@
            + decimal(self.row_count)
    }
}

impl<'a> Address<'a> {
    /// Writes the address, relative to the gateway's own.
    pub fn uri(&self) -> (r: String)
        ensures
            r@ == self@.uri(),
    {
        let mut query = "api/v1/ingestion/ingest?endpoint=".to_owned();
        query.append(form_encode(self.monitoring_endpoint.as_bytes()).as_str());
        query.append("&moniker=");
        query.append(self.moniker);
        query.append("&namespace=");
        query.append(self.namespace);
        query.append("&event=");
        query.append(self.event_name);
        query.append("&version=");
        query.append(self.version);
        query.append("&sourceUniqueId=");
        query.append(self.source_unique_id);
        query.append("&sourceIdentity=");
        query.append(form_encode(self.source_identity.as_bytes()).as_str());
        query.append("&startTime=");
        query.append(self.start_time);
        query.append("&endTime=");
        query.append(self.end_time);
        query.append("&format=centralbond/lz4hc&dataSize=");
        query.append(decimal_string(self.data_size as u64).as_str());
        query.append("&minLevel=");
        query.append(decimal_string(MIN_LEVEL).as_str());
        query.append("&schemaIds=");
        query.append(self.schema_ids);
        query.append("&rowCount=");
        query.append(decimal_string(self.row_count as u64).as_str());
        query
    }
}

/// The value of an uppercase hexadecimal digit.
pub open spec fn upper_hex_value(c: char) -> u8 {
    if c <= '9' {
        (c as u8 - 48) as u8
    } else {
        (c as u8 - 55) as u8
    }
}

/// The bytes that a form-encoded text stands for.
pub open spec fn form_decoded(s: Seq<char>) -> Seq<u8>
    decreases s.len(),
{
    if s.len() == 0 {
        Seq::empty()
    } else if s[0] == '%' && s.len() >= 3 {
        seq![(upper_hex_value(s[1]) * 16 + upper_hex_value(s[2])) as u8] + form_decoded(s.skip(3))
    } else if s[0] == '+' {
        seq![0x20u8] + form_decoded(s.skip(1))
    } else {
        seq![s[0] as u8] + form_decoded(s.skip(1))
    }
}

/// A character that can stand in a form-encoded text: a letter, a digit, or one of `*-._+%`.
pub open spec fn is_form_char(c: char) -> bool {
    ||| '0' <= c <= '9'
    ||| 'A' <= c <= 'Z'
    ||| 'a' <= c <= 'z'
    ||| c == '*' || c == '-' || c == '.' || c == '_' || c == '+' || c == '%'
}

/// Form-decoding gives back the bytes that were form-encoded.
pub proof fn law_form_encoding_reads_back(bytes: Seq<u8>)
    ensures
        form_decoded(form_encoded(bytes)) == bytes,
    decreases bytes.len(),
{
    let s = form_encoded(bytes);
    if bytes.len() == 0 {
        assert(form_decoded(s) =~= bytes);
    } else {
        let rest = bytes.skip(1);
        law_form_encoding_reads_back(rest);
        let first = form_encoded_byte(bytes[0]);
        assert(s == first + form_encoded(rest));
        assert(s.skip(first.len() as int) =~= form_encoded(rest));
        assert(forall|i: int| 0 <= i < first.len() ==> s[i] == first[i]);
        assert(form_decoded(s) =~= seq![bytes[0]] + rest);
        assert(seq![bytes[0]] + rest =~= bytes);
    }
}

/// A form-encoded text holds none of the characters that part an address: no `&`, `=`, `?`, `#`,
/// `/` or space.
pub proof fn law_form_encoding_is_safe(bytes: Seq<u8>)
    ensures
        forall|i: int|
            0 <= i < form_encoded(bytes).len() ==> is_form_char(#[trigger] form_encoded(bytes)[i]),
    decreases bytes.len(),
{
    if bytes.len() > 0 {
        let first = form_encoded_byte(bytes[0]);
        let rest = form_encoded(bytes.skip(1));
        law_form_encoding_is_safe(bytes.skip(1));
        assert(forall|i: int| 0 <= i < first.len() ==> is_form_char(#[trigger] first[i]));
        assert forall|i: int| 0 <= i < form_encoded(bytes).len() implies is_form_char(
            #[trigger] form_encoded(bytes)[i],
        ) by {
            if i < first.len() {
                assert(form_encoded(bytes)[i] == first[i]);
            } else {
                assert(form_encoded(bytes)[i] == rest[i - first.len()]);
            }
        }
    }
}

/// The part of a text before its first ampersand.
pub open spec fn until_ampersand(s: Seq<char>) -> Seq<char>
    decreases s.len(),
{
    if s.len() == 0 || s[0] == '&' {
        Seq::empty()
    } else {
        seq![s[0]] + until_ampersand(s.skip(1))
    }
}

proof fn lemma_until_ampersand(value: Seq<char>, rest: Seq<char>)
    requires
        forall|i: int| 0 <= i < value.len() ==> #[trigger] value[i] != '&',
        rest.len() > 0 && rest[0] == '&',
    ensures
        until_ampersand(value + rest) == value,
    decreases value.len(),
{
    if value.len() == 0 {
        assert(value + rest =~= rest);
        assert(until_ampersand(rest) =~= value);
    } else {
        assert forall|i: int| 0 <= i < value.skip(1).len() implies #[trigger] value.skip(1)[i]
            != '&' by {
            assert(value.skip(1)[i] == value[i + 1]);
        }
        lemma_until_ampersand(value.skip(1), rest);
        assert((value + rest).skip(1) =~= value.skip(1) + rest);
        assert(seq![value[0]] + value.skip(1) =~= value);
    }
}

/// Whatever the monitoring endpoint is, the gateway reads it back whole from the first parameter of
/// the address.
pub proof fn law_endpoint_reads_back(address: AddressText)
    ensures
        form_decoded(until_ampersand(address.uri().skip(address_start().len() as int)))
            == encode_utf8(address.monitoring_endpoint),
{
    let bytes = encode_utf8(address.monitoring_endpoint);
    let value = form_encoded(bytes);
    law_form_encoding_is_safe(bytes);
    law_form_encoding_reads_back(bytes);
    reveal_strlit("&moniker=");
    let rest = address.uri().skip((address_start() + value).len() as int);
    assert(address.uri().skip(address_start().len() as int) =~= value + rest);
    assert(rest[0] == "&moniker="@[0]);
    lemma_until_ampersand(value, rest);
}

/// Whatever the source identity is, the gateway reads it back whole from its parameter.
pub proof fn law_identity_reads_back(address: AddressText)
    ensures
        form_decoded(until_ampersand(address.uri().skip(address.before_identity().len() as int)))
            == encode_utf8(address.source_identity),
{
    let bytes = encode_utf8(address.source_identity);
    let value = form_encoded(bytes);
    law_form_encoding_is_safe(bytes);
    law_form_encoding_reads_back(bytes);
    reveal_strlit("&startTime=");
    let rest = address.uri().skip((address.before_identity() + value).len() as int);
    assert(address.uri().skip(address.before_identity().len() as int) =~= value + rest);
    assert(rest[0] == "&startTime="@[0]);
    lemma_until_ampersand(value, rest);
}

/// The text is the upload address of the values. The form encodings of the endpoint and the source
/// identity stand in it, the two numbers in decimal, and every other value as it is, whatever
/// characters it holds.
pub open spec fn spells_address(
    uri: Seq<char>,
    monitoring_endpoint: Seq<char>,
    moniker: Seq<char>,
    namespace: Seq<char>,
    event_name: Seq<char>,
    version: Seq<char>,
    source_unique_id: Seq<char>,
    source_identity: Seq<char>,
    start_time: Seq<char>,
    end_time: Seq<char>,
    data_size: nat,
    schema_ids: Seq<char>,
    row_count: nat,
) -> bool {
    exists|size: Seq<char>, rows: Seq<char>|
        {
            &&& #[trigger] spells_number(size, data_size)
            &&& #[trigger] spells_number(rows, row_count)
            &&& uri == "api/v1/ingestion/ingest?endpoint="@ + form_encoded(
                encode_utf8(monitoring_endpoint),
            ) + "&moniker="@ + moniker + "&namespace="@ + namespace + "&event="@ + event_name
                + "&version="@ + version + "&sourceUniqueId="@ + source_unique_id
                + "&sourceIdentity="@ + form_encoded(encode_utf8(source_identity)) + "&startTime="@
                + start_time + "&endTime="@ + end_time + "&format=centralbond/lz4hc&dataSize="@
                + size + "&minLevel="@ + "2"@ + "&schemaIds="@ + schema_ids + "&rowCount="@ + rows
        }
}

/// The address spells its values.
pub proof fn lemma_address_spells_its_values(a: AddressText)
    ensures
        spells_address(
            a.uri(),
            a.monitoring_endpoint,
            a.moniker,
            a.namespace,
            a.event_name,
            a.version,
            a.source_unique_id,
            a.source_identity,
            a.start_time,
            a.end_time,
            a.data_size,
            a.schema_ids,
            a.row_count,
        ),
{
    lemma_decimal_spells_the_number(a.data_size);
    lemma_decimal_spells_the_number(a.row_count);
    reveal_strlit("2");
    assert(decimal(2) =~= "2"@);
}

/// The written address spells the values that it was made of.
pub proof fn law_address_spells_its_values(a: Address<'_>, r: String)
    requires
        call_ensures(Address::uri, (&a,), r),
    ensures
        spells_address(
            r@,
            a.monitoring_endpoint@,
            a.moniker@,
            a.namespace@,
            a.event_name@,
            a.version@,
            a.source_unique_id@,
            a.source_identity@,
            a.start_time@,
            a.end_time@,
            a.data_size as nat,
            a.schema_ids@,
            a.row_count as nat,
        ),
{
    lemma_address_spells_its_values(a@);
}

/// A text without an ampersand.
pub open spec fn has_no_ampersand(s: Seq<char>) -> bool {
    forall|i: int| 0 <= i < s.len() ==> #[trigger] s[i] != '&'
}

/// The part of a text behind its first ampersand.
pub open spec fn after_ampersand(s: Seq<char>) -> Seq<char>
    decreases s.len(),
{
    if s.len() == 0 {
        Seq::empty()
    } else if s[0] == '&' {
        s.skip(1)
    } else {
        after_ampersand(s.skip(1))
    }
}

/// The parameter number `k` of an address, counted from zero: what stands between two ampersands.
pub open spec fn parameter(uri: Seq<char>, k: nat) -> Seq<char>
    decreases k,
{
    if k == 0 {
        until_ampersand(uri)
    } else {
        parameter(after_ampersand(uri), (k - 1) as nat)
    }
}

/// The parameter is the name, an equals sign and the number in decimal, which is read back from it.
pub open spec fn is_number_parameter(text: Seq<char>, name: Seq<char>, n: nat) -> bool {
    &&& text.len() > name.len()
    &&& text.take(name.len() as int) == name
    &&& spells_number(text.skip(name.len() as int), n)
}

/// The parameter is the name, an equals sign and the form encoding of the value, which is read back
/// from it.
pub open spec fn is_encoded_parameter(text: Seq<char>, name: Seq<char>, value: Seq<char>) -> bool {
    &&& text.len() >= name.len()
    &&& text.take(name.len() as int) == name
    &&& form_decoded(text.skip(name.len() as int)) == encode_utf8(value)
    &&& forall|i: int| name.len() <= i < text.len() ==> is_form_char(#[trigger] text[i])
}

/// The gateway reads the values from the parameters of the address: each under its name, in this
/// order.
pub open spec fn reads_as(
    uri: Seq<char>,
    monitoring_endpoint: Seq<char>,
    moniker: Seq<char>,
    namespace: Seq<char>,
    event_name: Seq<char>,
    version: Seq<char>,
    source_unique_id: Seq<char>,
    source_identity: Seq<char>,
    start_time: Seq<char>,
    end_time: Seq<char>,
    data_size: nat,
    schema_ids: Seq<char>,
    row_count: nat,
) -> bool {
    &&& is_encoded_parameter(
        parameter(uri, 0),
        "api/v1/ingestion/ingest?endpoint="@,
        monitoring_endpoint,
    )
    &&& parameter(uri, 1) == "moniker="@ + moniker
    &&& parameter(uri, 2) == "namespace="@ + namespace
    &&& parameter(uri, 3) == "event="@ + event_name
    &&& parameter(uri, 4) == "version="@ + version
    &&& parameter(uri, 5) == "sourceUniqueId="@ + source_unique_id
    &&& is_encoded_parameter(parameter(uri, 6), "sourceIdentity="@, source_identity)
    &&& parameter(uri, 7) == "startTime="@ + start_time
    &&& parameter(uri, 8) == "endTime="@ + end_time
    &&& parameter(uri, 9) == "format=centralbond/lz4hc"@
    &&& is_number_parameter(parameter(uri, 10), "dataSize="@, data_size)
    &&& parameter(uri, 11) == "minLevel=2"@
    &&& parameter(uri, 12) == "schemaIds="@ + schema_ids
    &&& is_number_parameter(parameter(uri, 13), "rowCount="@, row_count)
}

proof fn lemma_past_ampersand(value: Seq<char>, rest: Seq<char>)
    requires
        has_no_ampersand(value),
    ensures
        until_ampersand(value) == value,
        until_ampersand(value + (seq!['&'] + rest)) == value,
        after_ampersand(value + (seq!['&'] + rest)) == rest,
    decreases value.len(),
{
    let tail = seq!['&'] + rest;
    lemma_until_ampersand(value, tail);
    if value.len() == 0 {
        assert(value + tail =~= tail);
        assert(tail.skip(1) =~= rest);
        assert(until_ampersand(value) =~= value);
    } else {
        assert forall|i: int| 0 <= i < value.skip(1).len() implies #[trigger] value.skip(1)[i]
            != '&' by {
            assert(value.skip(1)[i] == value[i + 1]);
        }
        lemma_past_ampersand(value.skip(1), rest);
        assert((value + tail).skip(1) =~= value.skip(1) + tail);
        assert(seq![value[0]] + value.skip(1) =~= value);
    }
}

/// Some texts with an ampersand between each two.
pub open spec fn joined(parts: Seq<Seq<char>>) -> Seq<char>
    decreases parts.len(),
{
    if parts.len() <= 1 {
        parts[0]
    } else {
        joined(parts.drop_last()) + (seq!['&'] + parts.last())
    }
}

proof fn lemma_joined_from_the_front(parts: Seq<Seq<char>>)
    requires
        parts.len() >= 2,
    ensures
        joined(parts) == parts[0] + (seq!['&'] + joined(parts.skip(1))),
    decreases parts.len(),
{
    let rest = parts.skip(1);
    if parts.len() > 2 {
        lemma_joined_from_the_front(parts.drop_last());
        assert(parts.drop_last().skip(1) =~= rest.drop_last());
        assert(rest.last() == parts.last());
        assert(joined(parts) =~= parts[0] + (seq!['&'] + joined(rest)));
    } else {
        assert(joined(parts.drop_last()) == parts[0]);
        assert(joined(rest) == parts.last());
    }
}

/// The parameters of joined texts are the texts, where none holds an ampersand.
proof fn lemma_parameter_of_joined(parts: Seq<Seq<char>>, k: nat)
    requires
        k < parts.len(),
        forall|i: int| 0 <= i < parts.len() ==> has_no_ampersand(#[trigger] parts[i]),
    ensures
        parameter(joined(parts), k) == parts[k as int],
    decreases k,
{
    if parts.len() == 1 {
        lemma_past_ampersand(parts[0], Seq::empty());
    } else {
        let rest = parts.skip(1);
        lemma_joined_from_the_front(parts);
        lemma_past_ampersand(parts[0], joined(rest));
        if k > 0 {
            assert forall|i: int| 0 <= i < rest.len() implies has_no_ampersand(
                #[trigger] rest[i],
            ) by {
                assert(rest[i] == parts[i + 1]);
            }
            lemma_parameter_of_joined(rest, (k - 1) as nat);
        }
    }
}

/// One more parameter behind the others: `label` is the ampersand and the name.
proof fn lemma_one_more(
    parts: Seq<Seq<char>>,
    before: Seq<char>,
    label: Seq<char>,
    name: Seq<char>,
    value: Seq<char>,
)
    requires
        parts.len() > 0,
        before == joined(parts),
        label == seq!['&'] + name,
    ensures
        before + label + value == joined(parts.push(name + value)),
{
    assert(parts.push(name + value).drop_last() =~= parts);
    assert(before + label + value =~= before + (seq!['&'] + (name + value)));
}

proof fn lemma_name_and_value(name: Seq<char>, value: Seq<char>)
    requires
        has_no_ampersand(name),
        has_no_ampersand(value),
    ensures
        has_no_ampersand(name + value),
        (name + value).take(name.len() as int) == name,
        (name + value).skip(name.len() as int) == value,
{
    assert((name + value).take(name.len() as int) =~= name);
    assert((name + value).skip(name.len() as int) =~= value);
}

proof fn lemma_form_encoding_has_no_ampersand(value: Seq<char>)
    ensures
        has_no_ampersand(form_encoded(encode_utf8(value))),
        forall|i: int|
            0 <= i < form_encoded(encode_utf8(value)).len() ==> is_form_char(
                #[trigger] form_encoded(encode_utf8(value))[i],
            ),
        form_decoded(form_encoded(encode_utf8(value))) == encode_utf8(value),
{
    let bytes = encode_utf8(value);
    law_form_encoding_is_safe(bytes);
    law_form_encoding_reads_back(bytes);
    assert forall|i: int| 0 <= i < form_encoded(bytes).len() implies #[trigger] form_encoded(
        bytes,
    )[i] != '&' by {
        assert(is_form_char(form_encoded(bytes)[i]));
    }
}

/// The texts that part the values of an address: each is an ampersand and a name.
proof fn lemma_labels()
    ensures
        "&moniker="@ == seq!['&'] + "moniker="@,
        has_no_ampersand("moniker="@),
        "&namespace="@ == seq!['&'] + "namespace="@,
        has_no_ampersand("namespace="@),
        "&event="@ == seq!['&'] + "event="@,
        has_no_ampersand("event="@),
        "&version="@ == seq!['&'] + "version="@,
        has_no_ampersand("version="@),
        "&sourceUniqueId="@ == seq!['&'] + "sourceUniqueId="@,
        has_no_ampersand("sourceUniqueId="@),
        "&sourceIdentity="@ == seq!['&'] + "sourceIdentity="@,
        has_no_ampersand("sourceIdentity="@),
        "&startTime="@ == seq!['&'] + "startTime="@,
        has_no_ampersand("startTime="@),
        "&endTime="@ == seq!['&'] + "endTime="@,
        has_no_ampersand("endTime="@),
        has_no_ampersand("dataSize="@),
        "&minLevel="@ == seq!['&'] + "minLevel="@,
        has_no_ampersand("minLevel="@),
        "&schemaIds="@ == seq!['&'] + "schemaIds="@,
        has_no_ampersand("schemaIds="@),
        "&rowCount="@ == seq!['&'] + "rowCount="@,
        has_no_ampersand("rowCount="@),
        "&format=centralbond/lz4hc&dataSize="@ == seq!['&'] + ("format=centralbond/lz4hc"@ + (
        seq!['&'] + "dataSize="@)),
        has_no_ampersand("format=centralbond/lz4hc"@),
        has_no_ampersand("api/v1/ingestion/ingest?endpoint="@),
        "minLevel="@ + "2"@ == "minLevel=2"@,
        has_no_ampersand("2"@),
{
    reveal_strlit("&moniker=");
    reveal_strlit("moniker=");
    assert("&moniker="@ =~= seq!['&'] + "moniker="@);
    reveal_strlit("&namespace=");
    reveal_strlit("namespace=");
    assert("&namespace="@ =~= seq!['&'] + "namespace="@);
    reveal_strlit("&event=");
    reveal_strlit("event=");
    assert("&event="@ =~= seq!['&'] + "event="@);
    reveal_strlit("&version=");
    reveal_strlit("version=");
    assert("&version="@ =~= seq!['&'] + "version="@);
    reveal_strlit("&sourceUniqueId=");
    reveal_strlit("sourceUniqueId=");
    assert("&sourceUniqueId="@ =~= seq!['&'] + "sourceUniqueId="@);
    reveal_strlit("&sourceIdentity=");
    reveal_strlit("sourceIdentity=");
    assert("&sourceIdentity="@ =~= seq!['&'] + "sourceIdentity="@);
    reveal_strlit("&startTime=");
    reveal_strlit("startTime=");
    assert("&startTime="@ =~= seq!['&'] + "startTime="@);
    reveal_strlit("&endTime=");
    reveal_strlit("endTime=");
    assert("&endTime="@ =~= seq!['&'] + "endTime="@);
    reveal_strlit("dataSize=");
    reveal_strlit("&minLevel=");
    reveal_strlit("minLevel=");
    assert("&minLevel="@ =~= seq!['&'] + "minLevel="@);
    reveal_strlit("&schemaIds=");
    reveal_strlit("schemaIds=");
    assert("&schemaIds="@ =~= seq!['&'] + "schemaIds="@);
    reveal_strlit("&rowCount=");
    reveal_strlit("rowCount=");
    assert("&rowCount="@ =~= seq!['&'] + "rowCount="@);
    reveal_strlit("&format=centralbond/lz4hc&dataSize=");
    reveal_strlit("format=centralbond/lz4hc");
    reveal_strlit("api/v1/ingestion/ingest?endpoint=");
    reveal_strlit("2");
    reveal_strlit("minLevel=2");
    assert("&format=centralbond/lz4hc&dataSize="@ =~= seq!['&'] + ("format=centralbond/lz4hc"@ + (
    seq!['&'] + "dataSize="@)));
    assert("minLevel="@ + "2"@ =~= "minLevel=2"@);
}

/// The parameters of an upload address, as texts.
spec fn parameters(
    endpoint: Seq<char>,
    moniker: Seq<char>,
    namespace: Seq<char>,
    event_name: Seq<char>,
    version: Seq<char>,
    source_unique_id: Seq<char>,
    identity: Seq<char>,
    start_time: Seq<char>,
    end_time: Seq<char>,
    size: Seq<char>,
    schema_ids: Seq<char>,
    rows: Seq<char>,
) -> Seq<Seq<char>> {
    seq![
        "api/v1/ingestion/ingest?endpoint="@ + endpoint,
        "moniker="@ + moniker,
        "namespace="@ + namespace,
        "event="@ + event_name,
        "version="@ + version,
        "sourceUniqueId="@ + source_unique_id,
        "sourceIdentity="@ + identity,
        "startTime="@ + start_time,
        "endTime="@ + end_time,
        "format=centralbond/lz4hc"@,
        "dataSize="@ + size,
        "minLevel="@ + "2"@,
        "schemaIds="@ + schema_ids,
        "rowCount="@ + rows,
    ]
}

proof fn lemma_address_is_joined(
    endpoint: Seq<char>,
    moniker: Seq<char>,
    namespace: Seq<char>,
    event_name: Seq<char>,
    version: Seq<char>,
    source_unique_id: Seq<char>,
    identity: Seq<char>,
    start_time: Seq<char>,
    end_time: Seq<char>,
    size: Seq<char>,
    schema_ids: Seq<char>,
    rows: Seq<char>,
)
    ensures
        "api/v1/ingestion/ingest?endpoint="@ + endpoint + "&moniker="@ + moniker + "&namespace="@
            + namespace + "&event="@ + event_name + "&version="@ + version + "&sourceUniqueId="@
            + source_unique_id + "&sourceIdentity="@ + identity + "&startTime="@ + start_time
            + "&endTime="@ + end_time + "&format=centralbond/lz4hc&dataSize="@ + size
            + "&minLevel="@ + "2"@ + "&schemaIds="@ + schema_ids + "&rowCount="@ + rows == joined(
            parameters(
                endpoint,
                moniker,
                namespace,
                event_name,
                version,
                source_unique_id,
                identity,
                start_time,
                end_time,
                size,
                schema_ids,
                rows,
            ),
        ),
{
    lemma_labels();
    let all = parameters(
        endpoint,
        moniker,
        namespace,
        event_name,
        version,
        source_unique_id,
        identity,
        start_time,
        end_time,
        size,
        schema_ids,
        rows,
    );
    let u0 = "api/v1/ingestion/ingest?endpoint="@ + endpoint;
    let p0 = all.take(1);
    assert(p0[0] == u0);
    lemma_one_more(p0, u0, "&moniker="@, "moniker="@, moniker);
    let u1 = u0 + "&moniker="@ + moniker;
    let p1 = p0.push("moniker="@ + moniker);
    lemma_one_more(p1, u1, "&namespace="@, "namespace="@, namespace);
    let u2 = u1 + "&namespace="@ + namespace;
    let p2 = p1.push("namespace="@ + namespace);
    lemma_one_more(p2, u2, "&event="@, "event="@, event_name);
    let u3 = u2 + "&event="@ + event_name;
    let p3 = p2.push("event="@ + event_name);
    lemma_one_more(p3, u3, "&version="@, "version="@, version);
    let u4 = u3 + "&version="@ + version;
    let p4 = p3.push("version="@ + version);
    lemma_one_more(p4, u4, "&sourceUniqueId="@, "sourceUniqueId="@, source_unique_id);
    let u5 = u4 + "&sourceUniqueId="@ + source_unique_id;
    let p5 = p4.push("sourceUniqueId="@ + source_unique_id);
    lemma_one_more(p5, u5, "&sourceIdentity="@, "sourceIdentity="@, identity);
    let u6 = u5 + "&sourceIdentity="@ + identity;
    let p6 = p5.push("sourceIdentity="@ + identity);
    lemma_one_more(p6, u6, "&startTime="@, "startTime="@, start_time);
    let u7 = u6 + "&startTime="@ + start_time;
    let p7 = p6.push("startTime="@ + start_time);
    lemma_one_more(p7, u7, "&endTime="@, "endTime="@, end_time);
    let u8 = u7 + "&endTime="@ + end_time;
    let p8 = p7.push("endTime="@ + end_time);
    let middle = u8 + (seq!['&'] + "format=centralbond/lz4hc"@);
    let p9 = p8.push("format=centralbond/lz4hc"@);
    assert(p9.drop_last() =~= p8);
    assert(middle == joined(p9));
    let u9 = middle;
    lemma_one_more(p9, u9, seq!['&'] + "dataSize="@, "dataSize="@, size);
    let u10 = u8 + "&format=centralbond/lz4hc&dataSize="@ + size;
    assert(u10 =~= u9 + (seq!['&'] + "dataSize="@) + size);
    let p10 = p9.push("dataSize="@ + size);
    lemma_one_more(p10, u10, "&minLevel="@, "minLevel="@, "2"@);
    let u11 = u10 + "&minLevel="@ + "2"@;
    let p11 = p10.push("minLevel="@ + "2"@);
    lemma_one_more(p11, u11, "&schemaIds="@, "schemaIds="@, schema_ids);
    let u12 = u11 + "&schemaIds="@ + schema_ids;
    let p12 = p11.push("schemaIds="@ + schema_ids);
    lemma_one_more(p12, u12, "&rowCount="@, "rowCount="@, rows);
    let u13 = u12 + "&rowCount="@ + rows;
    let p13 = p12.push("rowCount="@ + rows);
    assert(p13 =~= all);
}

/// Where no plain value holds an ampersand, the gateway reads every value back from the address.
pub proof fn lemma_spelled_values_read_back(
    uri: Seq<char>,
    monitoring_endpoint: Seq<char>,
    moniker: Seq<char>,
    namespace: Seq<char>,
    event_name: Seq<char>,
    version: Seq<char>,
    source_unique_id: Seq<char>,
    source_identity: Seq<char>,
    start_time: Seq<char>,
    end_time: Seq<char>,
    data_size: nat,
    schema_ids: Seq<char>,
    row_count: nat,
)
    requires
        spells_address(
            uri,
            monitoring_endpoint,
            moniker,
            namespace,
            event_name,
            version,
            source_unique_id,
            source_identity,
            start_time,
            end_time,
            data_size,
            schema_ids,
            row_count,
        ),
        has_no_ampersand(moniker),
        has_no_ampersand(namespace),
        has_no_ampersand(event_name),
        has_no_ampersand(version),
        has_no_ampersand(source_unique_id),
        has_no_ampersand(start_time),
        has_no_ampersand(end_time),
        has_no_ampersand(schema_ids),
    ensures
        reads_as(
            uri,
            monitoring_endpoint,
            moniker,
            namespace,
            event_name,
            version,
            source_unique_id,
            source_identity,
            start_time,
            end_time,
            data_size,
            schema_ids,
            row_count,
        ),
{
    let (size, rows) = choose|size: Seq<char>, rows: Seq<char>|
        {
            &&& #[trigger] spells_number(size, data_size)
            &&& #[trigger] spells_number(rows, row_count)
            &&& uri == "api/v1/ingestion/ingest?endpoint="@ + form_encoded(
                encode_utf8(monitoring_endpoint),
            ) + "&moniker="@ + moniker + "&namespace="@ + namespace + "&event="@ + event_name
                + "&version="@ + version + "&sourceUniqueId="@ + source_unique_id
                + "&sourceIdentity="@ + form_encoded(encode_utf8(source_identity)) + "&startTime="@
                + start_time + "&endTime="@ + end_time + "&format=centralbond/lz4hc&dataSize="@
                + size + "&minLevel="@ + "2"@ + "&schemaIds="@ + schema_ids + "&rowCount="@ + rows
        };
    let endpoint = form_encoded(encode_utf8(monitoring_endpoint));
    let identity = form_encoded(encode_utf8(source_identity));
    let all = parameters(
        endpoint,
        moniker,
        namespace,
        event_name,
        version,
        source_unique_id,
        identity,
        start_time,
        end_time,
        size,
        schema_ids,
        rows,
    );
    lemma_address_is_joined(
        endpoint,
        moniker,
        namespace,
        event_name,
        version,
        source_unique_id,
        identity,
        start_time,
        end_time,
        size,
        schema_ids,
        rows,
    );
    lemma_labels();
    lemma_form_encoding_has_no_ampersand(monitoring_endpoint);
    lemma_form_encoding_has_no_ampersand(source_identity);
    assert(has_no_ampersand(size));
    assert(has_no_ampersand(rows));
    lemma_name_and_value("api/v1/ingestion/ingest?endpoint="@, endpoint);
    lemma_name_and_value("moniker="@, moniker);
    lemma_name_and_value("namespace="@, namespace);
    lemma_name_and_value("event="@, event_name);
    lemma_name_and_value("version="@, version);
    lemma_name_and_value("sourceUniqueId="@, source_unique_id);
    lemma_name_and_value("sourceIdentity="@, identity);
    lemma_name_and_value("startTime="@, start_time);
    lemma_name_and_value("endTime="@, end_time);
    lemma_name_and_value("dataSize="@, size);
    lemma_name_and_value("minLevel="@, "2"@);
    lemma_name_and_value("schemaIds="@, schema_ids);
    lemma_name_and_value("rowCount="@, rows);
    assert forall|i: int| 0 <= i < all.len() implies has_no_ampersand(#[trigger] all[i]) by {}
    lemma_parameter_of_joined(all, 0);
    lemma_parameter_of_joined(all, 1);
    lemma_parameter_of_joined(all, 2);
    lemma_parameter_of_joined(all, 3);
    lemma_parameter_of_joined(all, 4);
    lemma_parameter_of_joined(all, 5);
    lemma_parameter_of_joined(all, 6);
    lemma_parameter_of_joined(all, 7);
    lemma_parameter_of_joined(all, 8);
    lemma_parameter_of_joined(all, 9);
    lemma_parameter_of_joined(all, 10);
    lemma_parameter_of_joined(all, 11);
    lemma_parameter_of_joined(all, 12);
    lemma_parameter_of_joined(all, 13);
    let head = "api/v1/ingestion/ingest?endpoint="@;
    assert forall|i: int| head.len() <= i < all[0].len() implies is_form_char(
        #[trigger] all[0][i],
    ) by {
        assert(all[0][i] == endpoint[i - head.len()]);
    }
    let name = "sourceIdentity="@;
    assert forall|i: int| name.len() <= i < all[6].len() implies is_form_char(
        #[trigger] all[6][i],
    ) by {
        assert(all[6][i] == identity[i - name.len()]);
    }
}

/// Where no plain value holds an ampersand, the gateway reads every value back from the written
/// address, the size and the number of rows as numbers.
pub proof fn law_address_reads_back(a: Address<'_>, r: String)
    requires
        call_ensures(Address::uri, (&a,), r),
        has_no_ampersand(a.moniker@),
        has_no_ampersand(a.namespace@),
        has_no_ampersand(a.event_name@),
        has_no_ampersand(a.version@),
        has_no_ampersand(a.source_unique_id@),
        has_no_ampersand(a.start_time@),
        has_no_ampersand(a.end_time@),
        has_no_ampersand(a.schema_ids@),
    ensures
        reads_as(
            r@,
            a.monitoring_endpoint@,
            a.moniker@,
            a.namespace@,
            a.event_name@,
            a.version@,
            a.source_unique_id@,
            a.source_identity@,
            a.start_time@,
            a.end_time@,
            a.data_size as nat,
            a.schema_ids@,
            a.row_count as nat,
        ),
{
    law_address_spells_its_values(a, r);
    lemma_spelled_values_read_back(
        r@,
        a.monitoring_endpoint@,
        a.moniker@,
        a.namespace@,
        a.event_name@,
        a.version@,
        a.source_unique_id@,
        a.source_identity@,
        a.start_time@,
        a.end_time@,
        a.data_size as nat,
        a.schema_ids@,
        a.row_count as nat,
    );
}

/// Two addresses that are alike were made of the same size, the same number of rows and the same
/// plain values, where no plain value holds an ampersand.
pub proof fn law_addresses_tell_values_apart(a: Address<'_>, b: Address<'_>, r: String, q: String)
    requires
        call_ensures(Address::uri, (&a,), r),
        call_ensures(Address::uri, (&b,), q),
        r@ == q@,
        has_no_ampersand(a.moniker@) && has_no_ampersand(b.moniker@),
        has_no_ampersand(a.namespace@) && has_no_ampersand(b.namespace@),
        has_no_ampersand(a.event_name@) && has_no_ampersand(b.event_name@),
        has_no_ampersand(a.version@) && has_no_ampersand(b.version@),
        has_no_ampersand(a.source_unique_id@) && has_no_ampersand(b.source_unique_id@),
        has_no_ampersand(a.start_time@) && has_no_ampersand(b.start_time@),
        has_no_ampersand(a.end_time@) && has_no_ampersand(b.end_time@),
        has_no_ampersand(a.schema_ids@) && has_no_ampersand(b.schema_ids@),
    ensures
        a.data_size == b.data_size,
        a.row_count == b.row_count,
        a.moniker@ == b.moniker@,
        a.namespace@ == b.namespace@,
        a.event_name@ == b.event_name@,
        a.version@ == b.version@,
        a.source_unique_id@ == b.source_unique_id@,
        a.start_time@ == b.start_time@,
        a.end_time@ == b.end_time@,
        a.schema_ids@ == b.schema_ids@,
        encode_utf8(a.monitoring_endpoint@) == encode_utf8(b.monitoring_endpoint@),
        encode_utf8(a.source_identity@) == encode_utf8(b.source_identity@),
{
    law_address_reads_back(a, r);
    law_address_reads_back(b, q);
    lemma_same_tail("moniker="@, a.moniker@, b.moniker@);
    lemma_same_tail("namespace="@, a.namespace@, b.namespace@);
    lemma_same_tail("event="@, a.event_name@, b.event_name@);
    lemma_same_tail("version="@, a.version@, b.version@);
    lemma_same_tail("sourceUniqueId="@, a.source_unique_id@, b.source_unique_id@);
    lemma_same_tail("startTime="@, a.start_time@, b.start_time@);
    lemma_same_tail("endTime="@, a.end_time@, b.end_time@);
    lemma_same_tail("schemaIds="@, a.schema_ids@, b.schema_ids@);
}

proof fn lemma_same_tail(head: Seq<char>, one: Seq<char>, other: Seq<char>)
    ensures
        head + one == head + other ==> one == other,
{
    if head + one == head + other {
        assert((head + one).skip(head.len() as int) =~= one);
        assert((head + other).skip(head.len() as int) =~= other);
    }
}

} // verus!
