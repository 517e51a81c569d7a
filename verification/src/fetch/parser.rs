//! Builds an [`Email`] from the raw text of a fetched message.

use mail_parser::{Message, MessageParser};
use vstd::prelude::*;

verus! {

/// Name of the header that holds the subject of a mail.
pub const SUBJECT: &'static str = "Subject";

/// Name of the header that holds the date of a mail.
pub const DATE: &'static str = "Date";

/// Name of the header that holds the origin of a mail.
pub const FROM: &'static str = "From";

/// Errors that may occur while parsing a mail.
#[derive(Debug, Clone, Copy, PartialEq, Eq, Structural)]
pub enum Error {
    /// Given header has the wrong type
    InvalidHeaderType,
    /// Failed to parse the mail: no structure was found in it.
    ParseFailure,
    /// Failed to get headers from the mail.
    NoHeaders,
    /// Failed to get the wanted header
    MissingHeader,
}

/// A point in time, as a date header states it.
#[derive(Clone, Copy, Debug, PartialEq, Eq, Structural)]
pub struct DateTime {
    pub year: u16,
    pub month: u8,
    pub day: u8,
    pub hour: u8,
    pub minute: u8,
    pub second: u8,
    /// Whether the time zone is behind GMT
    pub tz_before_gmt: bool,
    pub tz_hour: u8,
    pub tz_minute: u8,
}

/// One mail address, with the name that goes with it.
#[derive(Debug, Clone, PartialEq, Eq)]
pub struct Addr {
    pub name: Option<String>,
    pub address: Option<String>,
}

/// A named group of addresses.
#[derive(Debug, Clone, PartialEq, Eq)]
pub struct Group {
    pub name: Option<String>,
    pub addresses: Vec<Addr>,
}

/// The addresses of an address header.
#[derive(Debug, Clone, PartialEq, Eq)]
pub enum Address {
    /// A plain list of addresses
    List(Vec<Addr>),
    /// Addresses in named groups
    Group(Vec<Group>),
}

/// Decoded value of a header.
#[derive(Debug, Clone, PartialEq, Eq)]
pub enum HeaderValue {
    /// Addresses
    Address(Address),
    /// Text, with encoded words decoded
    Text(String),
    /// A point in time
    DateTime(DateTime),
    /// A value of another shape, which the client does not read
    Other,
}

/// Name of a header. Names that differ only in the case of their ASCII
/// letters name the same header.
#[derive(Debug, Clone)]
pub struct HeaderName {
    /// Name as it is spelled
    name: String,
}

/// One header: its name and its value.
#[derive(Debug, Clone)]
pub struct Header {
    pub name: HeaderName,
    pub value: HeaderValue,
}

/// Mathematical content of an [`Addr`].
pub struct AddrView {
    pub name: Option<Seq<char>>,
    pub address: Option<Seq<char>>,
}

/// Mathematical content of a [`Group`].
pub struct GroupView {
    pub name: Option<Seq<char>>,
    pub addresses: Seq<AddrView>,
}

/// Mathematical content of an [`Address`].
pub enum AddressView {
    List(Seq<AddrView>),
    Group(Seq<GroupView>),
}

/// Mathematical content of a [`HeaderValue`].
pub enum HeaderValueView {
    Address(AddressView),
    Text(Seq<char>),
    DateTime(DateTime),
    Other,
}

/// Mathematical content of a [`Header`].
pub struct HeaderView {
    pub name: Seq<char>,
    pub value: HeaderValueView,
}

impl DeepView for Addr {
    type V = AddrView;

    open spec fn deep_view(&self) -> AddrView {
        AddrView { name: self.name.deep_view(), address: self.address.deep_view() }
    }
}

impl View for Addr {
    type V = AddrView;

    open spec fn view(&self) -> AddrView {
        self.deep_view()
    }
}

impl DeepView for Group {
    type V = GroupView;

    open spec fn deep_view(&self) -> GroupView {
        GroupView { name: self.name.deep_view(), addresses: self.addresses.deep_view() }
    }
}

impl View for Group {
    type V = GroupView;

    open spec fn view(&self) -> GroupView {
        self.deep_view()
    }
}

impl DeepView for Address {
    type V = AddressView;

    open spec fn deep_view(&self) -> AddressView {
        match self {
            Address::List(list) => AddressView::List(list.deep_view()),
            Address::Group(groups) => AddressView::Group(groups.deep_view()),
        }
    }
}

impl View for Address {
    type V = AddressView;

    open spec fn view(&self) -> AddressView {
        self.deep_view()
    }
}

impl DeepView for HeaderValue {
    type V = HeaderValueView;

    open spec fn deep_view(&self) -> HeaderValueView {
        match self {
            HeaderValue::Address(address) => HeaderValueView::Address(address.deep_view()),
            HeaderValue::Text(text) => HeaderValueView::Text(text@),
            HeaderValue::DateTime(datetime) => HeaderValueView::DateTime(*datetime),
            HeaderValue::Other => HeaderValueView::Other,
        }
    }
}

impl View for HeaderValue {
    type V = HeaderValueView;

    open spec fn view(&self) -> HeaderValueView {
        self.deep_view()
    }
}

impl View for HeaderName {
    type V = Seq<char>;

    closed spec fn view(&self) -> Seq<char> {
        self.name@
    }
}

impl DeepView for Header {
    type V = HeaderView;

    open spec fn deep_view(&self) -> HeaderView {
        HeaderView { name: self.name@, value: self.value@ }
    }
}

impl View for Header {
    type V = HeaderView;

    open spec fn view(&self) -> HeaderView {
        self.deep_view()
    }
}

/// The lower-case form of an ASCII capital, any other character unchanged.
pub open spec fn lower(c: char) -> char {
    if 'A' <= c <= 'Z' {
        ((c as u8) + 32) as char
    } else {
        c
    }
}

/// The key under which a header of the given name is kept: the name with its
/// ASCII capitals in lower case.
pub open spec fn field_key(name: Seq<char>) -> Seq<char> {
    Seq::new(name.len(), |i: int| lower(name[i]))
}

/// The headers of a mail as a mapping from key to value. Of several headers
/// with one key the last one stays.
pub open spec fn header_map(headers: Seq<HeaderView>) -> Map<Seq<char>, HeaderValueView>
    decreases headers.len(),
{
    if headers.len() == 0 {
        Map::empty()
    } else {
        header_map(headers.drop_last()).insert(
            field_key(headers.last().name),
            headers.last().value,
        )
    }
}

/// Index of the last header with the given key, or -1 if there is none.
pub open spec fn last_index(headers: Seq<HeaderView>, key: Seq<char>) -> int
    decreases headers.len(),
{
    if headers.len() == 0 {
        -1
    } else if field_key(headers.last().name) == key {
        headers.len() - 1
    } else {
        last_index(headers.drop_last(), key)
    }
}

/// No two of the headers have the same key.
pub open spec fn distinct_keys(headers: Seq<HeaderView>) -> bool {
    forall|i: int, j: int|
        0 <= i < j < headers.len() ==> field_key(#[trigger] headers[i].name) != field_key(
            #[trigger] headers[j].name,
        )
}

/// The mapping holds a key exactly if a header has it, and then it holds the
/// value of the last such header.
pub proof fn lemma_header_map_lookup(headers: Seq<HeaderView>, key: Seq<char>)
    ensures
        -1 <= last_index(headers, key) < headers.len(),
        header_map(headers).dom().contains(key) <==> last_index(headers, key) >= 0,
        last_index(headers, key) >= 0 ==> {
            &&& field_key(headers[last_index(headers, key)].name) == key
            &&& header_map(headers)[key] == headers[last_index(headers, key)].value
        },
        last_index(headers, key) < 0 ==> forall|i: int|
            0 <= i < headers.len() ==> field_key(#[trigger] headers[i].name) != key,
    decreases headers.len(),
{
    if headers.len() > 0 {
        lemma_header_map_lookup(headers.drop_last(), key);
        if field_key(headers.last().name) != key {
            assert forall|i: int| 0 <= i < headers.len() && last_index(headers, key) < 0 implies field_key(
                #[trigger] headers[i].name,
            ) != key by {
                if i < headers.len() - 1 {
                    assert(headers.drop_last()[i] == headers[i]);
                }
            }
        }
    }
}

/// A header put in front of others adds its key to the mapping unless a
/// later header has that key.
pub proof fn lemma_header_map_front(first: HeaderView, rest: Seq<HeaderView>)
    ensures
        header_map(seq![first] + rest) == if header_map(rest).dom().contains(
            field_key(first.name),
        ) {
            header_map(rest)
        } else {
            header_map(rest).insert(field_key(first.name), first.value)
        },
    decreases rest.len(),
{
    let all = seq![first] + rest;
    if rest.len() == 0 {
        assert(all.drop_last() =~= rest);
    } else {
        lemma_header_map_front(first, rest.drop_last());
        assert(all.drop_last() =~= seq![first] + rest.drop_last());
    }
}

impl HeaderName {
    /// The header of the given name.
    pub fn new(name: &str) -> (header_name: Self)
        ensures
            header_name@ == name@,
    {
        HeaderName { name: name.to_owned() }
    }

    /// The name as it is spelled.
    pub fn as_str(&self) -> (name: &str)
        ensures
            name@ == self@,
    {
        self.name.as_str()
    }

    /// Whether both names name the same header.
    pub fn same_field(&self, other: &HeaderName) -> (same: bool)
        ensures
            same == (field_key(self@) == field_key(other@)),
    {
        let a = self.name.as_str();
        let b = other.name.as_str();
        let len: usize = a.unicode_len();
        if len != b.unicode_len() {
            assert(field_key(a@).len() != field_key(b@).len());
            return false;
        }
        let mut i: usize = 0;
        while i < len
            invariant
                a@ == self@,
                b@ == other@,
                len == a@.len(),
                len == b@.len(),
                i <= len,
                forall|j: int| 0 <= j < i ==> lower(a@[j]) == lower(b@[j]),
            decreases len - i,
        {
            if to_lower(a.get_char(i)) != to_lower(b.get_char(i)) {
                assert(field_key(a@)[i as int] != field_key(b@)[i as int]);
                return false;
            }
            i += 1;
        }
        assert(field_key(a@) =~= field_key(b@));
        true
    }
}

/// The lower-case form of an ASCII capital, any other character unchanged.
pub fn to_lower(c: char) -> (folded: char)
    ensures
        folded == lower(c),
{
    if 'A' <= c && c <= 'Z' {
        ((c as u8) + 32) as char
    } else {
        c
    }
}

impl HeaderValue {
    /// The text of a text header.
    pub fn as_text(&self) -> (text: Option<&str>)
        ensures
            match self@ {
                HeaderValueView::Text(value) => text matches Some(t) && t@ == value,
                _ => text is None,
            },
    {
        match self {
            HeaderValue::Text(text) => Some(text.as_str()),
            _ => None,
        }
    }

    /// The point in time of a date header.
    pub fn as_datetime(&self) -> (datetime: Option<&DateTime>)
        ensures
            match self@ {
                HeaderValueView::DateTime(value) => datetime matches Some(d) && *d == value,
                _ => datetime is None,
            },
    {
        match self {
            HeaderValue::DateTime(datetime) => Some(datetime),
            _ => None,
        }
    }

    /// The addresses of an address header.
    pub fn as_address(&self) -> (address: Option<&Address>)
        ensures
            match self@ {
                HeaderValueView::Address(value) => address matches Some(a) && a@ == value,
                _ => address is None,
            },
    {
        match self {
            HeaderValue::Address(address) => Some(address),
            _ => None,
        }
    }
}

/// Parsed message of the `mail_parser` crate.
#[verifier::external_type_specification]
#[verifier::external_body]
pub struct ExMessage<'x>(Message<'x>);

/// What `MessageParser::parse` of `mail_parser` makes of the raw text of a
/// message, if it finds a message in it.
pub uninterp spec fn parsed(raw: Seq<u8>) -> Option<Message<'static>>;

/// The headers of the root part of a parsed message, in the order in which
/// they stand in it; none where the message has no part. The name of a
/// header is what `HeaderName::as_str` gives. Its value is `Text` where
/// `HeaderValue::as_text` gives a text, `DateTime` where
/// `HeaderValue::as_datetime` gives a point in time, `Address` where
/// `HeaderValue::as_address` gives addresses, and `Other` where none of the
/// three gives anything.
pub uninterp spec fn message_headers(message: Message<'static>) -> Seq<HeaderView>;

/// What `Message::body_html` of `mail_parser` gives for the given position:
/// the HTML body at that position, if the message has one.
pub uninterp spec fn html_body(message: Message<'static>, pos: nat) -> Option<Seq<char>>;

/// What `Message::body_text` of `mail_parser` gives for the given position:
/// the plain-text body at that position, if the message has one.
pub uninterp spec fn text_body(message: Message<'static>, pos: nat) -> Option<Seq<char>>;

/// What `DateTime::to_rfc3339` of `mail_parser` gives: the point in time as
/// RFC 3339 text.
pub uninterp spec fn rfc3339_text(datetime: DateTime) -> Seq<char>;

/// What the `Debug` form of `Address` of `mail_parser` prints for the
/// addresses of a header.
pub uninterp spec fn address_text(address: AddressView) -> Seq<char>;

/// The text of a header value, if it is text.
pub open spec fn value_text(value: HeaderValueView) -> Option<Seq<char>> {
    match value {
        HeaderValueView::Text(text) => Some(text),
        _ => None,
    }
}

/// The point in time of a header value, if it is one.
pub open spec fn value_datetime(value: HeaderValueView) -> Option<DateTime> {
    match value {
        HeaderValueView::DateTime(datetime) => Some(datetime),
        _ => None,
    }
}

/// The addresses of a header value, if it is a plain list of them.
pub open spec fn value_list(value: HeaderValueView) -> Option<Seq<AddrView>> {
    match value {
        HeaderValueView::Address(AddressView::List(list)) => Some(list),
        _ => None,
    }
}

/// The groups of a header value, if it holds addresses in groups.
pub open spec fn value_groups(value: HeaderValueView) -> Option<Seq<GroupView>> {
    match value {
        HeaderValueView::Address(AddressView::Group(groups)) => Some(groups),
        _ => None,
    }
}

/// `MessageParser::parse` of `mail_parser`, on the parser that
/// `MessageParser::default` gives: the parsed message that `parsed` names,
/// made to own its data by `Message::into_owned`.
#[verifier::external_body]
fn parse_message(raw: &[u8]) -> (message: Option<Message<'static>>)
    ensures
        message == parsed(raw@),
{
    MessageParser::default().parse(raw).map(|message| message.into_owned())
}

/// The fields `parts` of `Message` and `headers` of `MessagePart` of
/// `mail_parser`: the number of headers of the root part, and 0 where the
/// message has no part.
#[verifier::external_body]
fn header_count(message: &Message<'static>) -> (count: usize)
    ensures
        count == message_headers(*message).len(),
{
    message.parts.first().map_or(0, |part| part.headers.len())
}

/// `HeaderName::as_str` of `mail_parser`, on one header of the root part:
/// the name of the header as text.
#[verifier::external_body]
fn header_name(message: &Message<'static>, index: usize) -> (name: String)
    requires
        index < message_headers(*message).len(),
    ensures
        name@ == message_headers(*message)[index as int].name,
{
    message.parts[0].headers[index].name.as_str().to_owned()
}

/// `HeaderValue::as_text` of `mail_parser`, on one header of the root part:
/// the text of the header, exactly where its value is `Text`.
#[verifier::external_body]
fn header_text(message: &Message<'static>, index: usize) -> (text: Option<String>)
    requires
        index < message_headers(*message).len(),
    ensures
        text.deep_view() == value_text(message_headers(*message)[index as int].value),
{
    message.parts[0].headers[index].value.as_text().map(|text| text.to_owned())
}

/// `HeaderValue::as_datetime` of `mail_parser`, on one header of the root
/// part: the point in time of the header, field by field, exactly where its
/// value is `DateTime`.
#[verifier::external_body]
fn header_datetime(message: &Message<'static>, index: usize) -> (datetime: Option<DateTime>)
    requires
        index < message_headers(*message).len(),
    ensures
        datetime == value_datetime(message_headers(*message)[index as int].value),
{
    message.parts[0].headers[index].value.as_datetime().map(|d| DateTime {
        year: d.year,
        month: d.month,
        day: d.day,
        hour: d.hour,
        minute: d.minute,
        second: d.second,
        tz_before_gmt: d.tz_before_gmt,
        tz_hour: d.tz_hour,
        tz_minute: d.tz_minute,
    })
}

/// `HeaderValue::as_address` and `Address::as_list` of `mail_parser`, on one
/// header of the root part: the addresses of the header, each with its name,
/// exactly where its value is a plain list of addresses.
#[verifier::external_body]
fn header_address_list(message: &Message<'static>, index: usize) -> (list: Option<Vec<Addr>>)
    requires
        index < message_headers(*message).len(),
    ensures
        list.deep_view() == value_list(message_headers(*message)[index as int].value),
{
    let address = message.parts[0].headers[index].value.as_address();
    address.and_then(|address| address.as_list()).map(|list| {
        list.iter().map(|addr| Addr {
            name: addr.name().map(|name| name.to_owned()),
            address: addr.address().map(|address| address.to_owned()),
        }).collect()
    })
}

/// `HeaderValue::as_address` and `Address::as_group` of `mail_parser`, on one
/// header of the root part: the groups of the header, each with its name and
/// its addresses, exactly where its value is addresses in groups.
#[verifier::external_body]
fn header_address_groups(message: &Message<'static>, index: usize) -> (groups: Option<Vec<Group>>)
    requires
        index < message_headers(*message).len(),
    ensures
        groups.deep_view() == value_groups(message_headers(*message)[index as int].value),
{
    let address = message.parts[0].headers[index].value.as_address();
    address.and_then(|address| address.as_group()).map(|groups| {
        groups.iter().map(|group| Group {
            name: group.name.as_deref().map(|name| name.to_owned()),
            addresses: group.addresses.iter().map(|addr| Addr {
                name: addr.name().map(|name| name.to_owned()),
                address: addr.address().map(|address| address.to_owned()),
            }).collect(),
        }).collect()
    })
}

/// `Message::body_html` of `mail_parser`: the HTML body of the given
/// position, if the message has one.
#[verifier::external_body]
fn body_html(message: &Message<'static>, pos: usize) -> (html: Option<String>)
    ensures
        html.deep_view() == html_body(*message, pos as nat),
{
    message.body_html(pos).map(|html| html.into_owned())
}

/// `Message::body_text` of `mail_parser`: the plain-text body of the given
/// position, if the message has one.
#[verifier::external_body]
fn body_text(message: &Message<'static>, pos: usize) -> (text: Option<String>)
    ensures
        text.deep_view() == text_body(*message, pos as nat),
{
    message.body_text(pos).map(|text| text.into_owned())
}

/// `DateTime::to_rfc3339` of `mail_parser`, on the point in time of the same
/// fields: the text that `rfc3339_text` names.
#[verifier::external_body]
fn rfc3339(datetime: &DateTime) -> (text: String)
    ensures
        text@ == rfc3339_text(*datetime),
{
    let datetime = mail_parser::DateTime {
        year: datetime.year,
        month: datetime.month,
        day: datetime.day,
        hour: datetime.hour,
        minute: datetime.minute,
        second: datetime.second,
        tz_before_gmt: datetime.tz_before_gmt,
        tz_hour: datetime.tz_hour,
        tz_minute: datetime.tz_minute,
    };
    datetime.to_rfc3339()
}

/// The `Debug` form of `Address` of `mail_parser`, on the same addresses: the
/// text that `address_text` names.
#[verifier::external_body]
fn address_debug(address: &Address) -> (text: String)
    ensures
        text@ == address_text(address@),
{
    let addr = |a: &Addr| mail_parser::Addr { name: a.name.clone().map(Into::into), address: a.address.clone().map(Into::into) };
    let value = match address {
        Address::List(list) => mail_parser::Address::List(list.iter().map(addr).collect()),
        Address::Group(groups) => mail_parser::Address::Group(groups.iter().map(|g| mail_parser::Group {
            name: g.name.clone().map(Into::into),
            addresses: g.addresses.iter().map(addr).collect(),
        }).collect()),
    };
    format!("{value:?}")
}

impl DateTime {
    /// The point in time as RFC 3339 text.
    pub fn to_rfc3339(&self) -> (text: String)
        ensures
            text@ == rfc3339_text(*self),
    {
        rfc3339(self)
    }
}

/// The first address of the first group that has one.
pub open spec fn first_in_groups(groups: Seq<GroupView>) -> Option<AddrView>
    decreases groups.len(),
{
    if groups.len() == 0 {
        None
    } else if groups[0].addresses.len() > 0 {
        Some(groups[0].addresses[0])
    } else {
        first_in_groups(groups.skip(1))
    }
}

/// The first of the addresses, if there is one.
pub open spec fn first_address(address: AddressView) -> Option<AddrView> {
    match address {
        AddressView::List(list) => if list.len() > 0 {
            Some(list[0])
        } else {
            None
        },
        AddressView::Group(groups) => first_in_groups(groups),
    }
}

impl Addr {
    /// The address `address`, under the name `name` if one is given.
    pub fn new(name: Option<&str>, address: &str) -> (addr: Self)
        ensures
            addr@ == (AddrView { name: name.deep_view(), address: Some(address@) }),
    {
        let name = match name {
            Some(name) => Some(name.to_owned()),
            None => None,
        };
        Addr { name, address: Some(address.to_owned()) }
    }
}

impl Group {
    /// The group `name` of the given addresses.
    pub fn new(name: &str, addresses: Vec<Addr>) -> (group: Self)
        ensures
            group@ == (GroupView { name: Some(name@), addresses: addresses.deep_view() }),
    {
        Group { name: Some(name.to_owned()), addresses }
    }
}

impl Address {
    /// Returns the first address in the list, or the first address in the
    /// first group that has one.
    pub fn first(&self) -> (addr: Option<&Addr>)
        ensures
            addr.deep_view() == first_address(self@),
    {
        match self {
            Address::List(list) => if list.len() > 0 {
                Some(&list[0])
            } else {
                None
            },
            Address::Group(groups) => {
                let mut i: usize = 0;
                assert(groups.deep_view().skip(0) =~= groups.deep_view());
                while i < groups.len()
                    invariant
                        i <= groups.len(),
                        self@ == AddressView::Group(groups.deep_view()),
                        first_in_groups(groups.deep_view()) == first_in_groups(
                            groups.deep_view().skip(i as int),
                        ),
                    decreases groups.len() - i,
                {
                    let ghost rest = groups.deep_view().skip(i as int);
                    if groups[i].addresses.len() > 0 {
                        return Some(&groups[i].addresses[0]);
                    }
                    assert(rest.skip(1) =~= groups.deep_view().skip(i + 1));
                    i += 1;
                }
                None
            },
        }
    }

    /// The addresses in their debug form.
    pub fn to_debug_text(&self) -> (text: String)
        ensures
            text@ == address_text(self@),
    {
        address_debug(self)
    }

    /// Returns the list of addresses, or `None` if they come in groups.
    pub fn as_list(&self) -> (list: Option<&Vec<Addr>>)
        ensures
            match self@ {
                AddressView::List(value) => list matches Some(l) && l.deep_view() == value,
                AddressView::Group(_) => list is None,
            },
    {
        match self {
            Address::List(list) => Some(list),
            Address::Group(_) => None,
        }
    }

    /// Returns the groups of addresses, or `None` if they are a plain list.
    pub fn as_group(&self) -> (groups: Option<&Vec<Group>>)
        ensures
            match self@ {
                AddressView::List(_) => groups is None,
                AddressView::Group(value) => groups matches Some(g) && g.deep_view() == value,
            },
    {
        match self {
            Address::List(_) => None,
            Address::Group(groups) => Some(groups),
        }
    }
}

/// Headers of a mail: a mapping from header to value, with at most one value
/// for each header.
#[derive(Debug)]
pub struct Headers {
    /// The headers, no two of them with the same key
    entries: Vec<Header>,
}

impl View for Headers {
    type V = Map<Seq<char>, HeaderValueView>;

    closed spec fn view(&self) -> Map<Seq<char>, HeaderValueView> {
        header_map(self.entries.deep_view())
    }
}

/// Position of the last header with the key of `name`, if there is one.
fn find(entries: &Vec<Header>, name: &HeaderName) -> (found: Option<usize>)
    ensures
        match found {
            Some(index) => index == last_index(entries.deep_view(), field_key(name@)),
            None => last_index(entries.deep_view(), field_key(name@)) == -1,
        },
{
    let ghost headers = entries.deep_view();
    let ghost key = field_key(name@);
    let mut i: usize = entries.len();
    assert(headers.take(i as int) =~= headers);
    while i > 0
        invariant
            i <= entries.len(),
            headers == entries.deep_view(),
            key == field_key(name@),
            last_index(headers, key) == last_index(headers.take(i as int), key),
        decreases i,
    {
        i -= 1;
        assert(headers.take(i + 1).drop_last() =~= headers.take(i as int));
        if entries[i].name.same_field(name) {
            return Some(i);
        }
    }
    None
}

impl Headers {
    #[verifier::type_invariant]
    spec fn distinct(self) -> bool {
        distinct_keys(self.entries.deep_view())
    }

    /// Gathers parsed headers. Of several headers with one key, the one
    /// parsed last stays.
    pub fn collect(parsed: Vec<Header>) -> (headers: Self)
        ensures
            headers@ == header_map(parsed.deep_view()),
    {
        let ghost all = parsed.deep_view();
        let mut parsed = parsed;
        let mut entries: Vec<Header> = Vec::new();
        while parsed.len() > 0
            invariant
                parsed.len() <= all.len(),
                parsed.deep_view() == all.take(parsed.len() as int),
                distinct_keys(entries.deep_view()),
                header_map(entries.deep_view()) == header_map(all.skip(parsed.len() as int)),
            decreases parsed.len(),
        {
            let ghost before = parsed.deep_view();
            let ghost kept = entries.deep_view();
            let ghost n = parsed.len() as int;
            let header = parsed.pop().unwrap();
            let found = find(&entries, &header.name);
            proof {
                assert(header@ == before[n - 1]);
                assert(all.skip(n - 1) =~= seq![header@] + all.skip(n));
                lemma_header_map_front(header@, all.skip(n));
                lemma_header_map_lookup(kept, field_key(header@.name));
            }
            if found.is_none() {
                entries.push(header);
                proof {
                    let now = entries.deep_view();
                    assert(now.drop_last() =~= kept);
                    assert forall|i: int, j: int| 0 <= i < j < now.len() implies field_key(
                        #[trigger] now[i].name,
                    ) != field_key(#[trigger] now[j].name) by {
                        assert(now[i] == kept[i]);
                        if j < kept.len() {
                            assert(now[j] == kept[j]);
                        }
                    }
                }
            }
        }
        Headers { entries }
    }

    /// Value of the header `name`, if the mail has that header.
    pub fn get(&self, name: &HeaderName) -> (value: Option<&HeaderValue>)
        ensures
            match value {
                Some(v) => self@.dom().contains(field_key(name@)) && v@ == self@[field_key(name@)],
                None => !self@.dom().contains(field_key(name@)),
            },
    {
        proof {
            lemma_header_map_lookup(self.entries.deep_view(), field_key(name@));
        }
        match find(&self.entries, name) {
            Some(index) => Some(&self.entries[index].value),
            None => None,
        }
    }

    /// The headers one by one; no two of them have the same key.
    pub fn entries(&self) -> (entries: &Vec<Header>)
        ensures
            distinct_keys(entries.deep_view()),
            header_map(entries.deep_view()) == self@,
    {
        proof {
            use_type_invariant(self);
        }
        &self.entries
    }
}

/// Represents a parsed mail
#[derive(Debug)]
pub struct Email {
    /// Headers of the mail
    ///
    /// This contains the date, the origin (`from`), the destination (`to`,
    /// `cc`, `bcc`), the subject, etc.
    headers: Headers,
    /// HTML version of the mail content
    html: Option<String>,
    /// Plain text version of the mail content
    text: Option<String>,
    /// Unique ID corresponding to the mail
    uid: u32,
}

/// Mathematical content of an [`Email`].
pub struct EmailView {
    pub headers: Map<Seq<char>, HeaderValueView>,
    pub html: Option<Seq<char>>,
    pub text: Option<Seq<char>>,
    pub uid: u32,
}

impl View for Email {
    type V = EmailView;

    closed spec fn view(&self) -> EmailView {
        EmailView {
            headers: self.headers@,
            html: self.html.deep_view(),
            text: self.text.deep_view(),
            uid: self.uid,
        }
    }
}

impl DeepView for Email {
    type V = EmailView;

    open spec fn deep_view(&self) -> EmailView {
        self@
    }
}

/// The mail that the parts of a parsed message make, or the reason why they
/// make none: a message without any header is refused.
pub open spec fn mail_of_parts(
    uid: u32,
    headers: Seq<HeaderView>,
    html: Option<Seq<char>>,
    text: Option<Seq<char>>,
) -> Result<EmailView, Error> {
    if headers.len() == 0 {
        Err(Error::NoHeaders)
    } else {
        Ok(EmailView { headers: header_map(headers), html, text, uid })
    }
}

/// The mail that the raw text of a message makes, or the reason why it makes
/// none.
pub open spec fn mail_of_raw(uid: u32, raw: Seq<u8>) -> Result<EmailView, Error> {
    match parsed(raw) {
        None => Err(Error::ParseFailure),
        Some(message) => mail_of_parts(
            uid,
            message_headers(message),
            html_body(message, 0),
            text_body(message, 0),
        ),
    }
}

/// Mathematical content of the outcome of building a mail.
pub open spec fn outcome_view(outcome: Result<Email, Error>) -> Result<EmailView, Error> {
    match outcome {
        Ok(email) => Ok(email@),
        Err(error) => Err(error),
    }
}

/// Value of the header `name` of a mail, if the mail has that header.
pub open spec fn header_of(email: EmailView, name: Seq<char>) -> Option<HeaderValueView> {
    if email.headers.dom().contains(field_key(name)) {
        Some(email.headers[field_key(name)])
    } else {
        None
    }
}

/// Subject of a mail: the text of its subject header. It is an error for the
/// header to be missing, and another one for it to hold no text.
pub open spec fn subject_of(email: EmailView) -> Result<Seq<char>, Error> {
    match header_of(email, SUBJECT@) {
        None => Err(Error::MissingHeader),
        Some(HeaderValueView::Text(text)) => Ok(text),
        Some(_) => Err(Error::InvalidHeaderType),
    }
}

/// Date of a mail: the point in time of its date header. It is an error for
/// the header to be missing, and another one for it to hold no date.
pub open spec fn date_of(email: EmailView) -> Result<DateTime, Error> {
    match header_of(email, DATE@) {
        None => Err(Error::MissingHeader),
        Some(HeaderValueView::DateTime(datetime)) => Ok(datetime),
        Some(_) => Err(Error::InvalidHeaderType),
    }
}

/// Sender of a mail: the addresses of its origin header. It is an error for
/// the header to be missing, and another one for it to hold no addresses.
pub open spec fn sender_of(email: EmailView) -> Result<AddressView, Error> {
    match header_of(email, FROM@) {
        None => Err(Error::MissingHeader),
        Some(HeaderValueView::Address(address)) => Ok(address),
        Some(_) => Err(Error::InvalidHeaderType),
    }
}

/// The value of one header of the root part of a parsed message.
fn header_value(message: &Message<'static>, index: usize) -> (value: HeaderValue)
    requires
        index < message_headers(*message).len(),
    ensures
        value@ == message_headers(*message)[index as int].value,
{
    if let Some(text) = header_text(message, index) {
        return HeaderValue::Text(text);
    }
    if let Some(datetime) = header_datetime(message, index) {
        return HeaderValue::DateTime(datetime);
    }
    if let Some(list) = header_address_list(message, index) {
        return HeaderValue::Address(Address::List(list));
    }
    if let Some(groups) = header_address_groups(message, index) {
        return HeaderValue::Address(Address::Group(groups));
    }
    HeaderValue::Other
}

/// The headers of the root part of a parsed message, in their order.
fn read_headers(message: &Message<'static>) -> (headers: Vec<Header>)
    ensures
        headers.deep_view() == message_headers(*message),
{
    let count = header_count(message);
    let mut headers: Vec<Header> = Vec::new();
    let mut i: usize = 0;
    while i < count
        invariant
            i <= count,
            count == message_headers(*message).len(),
            headers.len() == i,
            forall|j: int| 0 <= j < i ==> headers[j]@ == message_headers(*message)[j],
        decreases count - i,
    {
        let name = HeaderName { name: header_name(message, i) };
        let value = header_value(message, i);
        headers.push(Header { name, value });
        i += 1;
    }
    headers
}

impl Email {
    /// Builds a mail from the parts of a parsed message.
    pub fn from_parts(
        uid: u32,
        headers: Vec<Header>,
        html: Option<String>,
        text: Option<String>,
    ) -> (outcome: Result<Self, Error>)
        ensures
            outcome_view(outcome) == mail_of_parts(
                uid,
                headers.deep_view(),
                html.deep_view(),
                text.deep_view(),
            ),
    {
        if headers.len() == 0 {
            return Err(Error::NoHeaders);
        }
        Ok(Email { headers: Headers::collect(headers), html, text, uid })
    }

    /// Parses the raw text of the message fetched under `uid`.
    pub fn try_from(value: (u32, &[u8])) -> (outcome: Result<Self, Error>)
        ensures
            outcome_view(outcome) == mail_of_raw(value.0, value.1@),
    {
        let (uid, raw) = value;
        let message = match parse_message(raw) {
            Some(message) => message,
            None => { return Err(Error::ParseFailure); },
        };
        let headers = read_headers(&message);
        let html = body_html(&message, 0);
        let text = body_text(&message, 0);
        Email::from_parts(uid, headers, html, text)
    }

    /// Returns the headers of the mail
    pub fn as_headers(&self) -> (headers: &Headers)
        ensures
            headers@ == self@.headers,
    {
        &self.headers
    }

    /// Returns the value of a header
    pub fn get_header(&self, header_name: &HeaderName) -> (value: Result<&HeaderValue, Error>)
        ensures
            match value {
                Ok(v) => self@.headers.dom().contains(field_key(header_name@)) && v@
                    == self@.headers[field_key(header_name@)],
                Err(error) => error == Error::MissingHeader && !self@.headers.dom().contains(
                    field_key(header_name@),
                ),
            },
    {
        match self.headers.get(header_name) {
            Some(value) => Ok(value),
            None => Err(Error::MissingHeader),
        }
    }

    /// Returns the subject of the mail
    pub fn subject(&self) -> (subject: Result<&str, Error>)
        ensures
            match subject {
                Ok(text) => subject_of(self@) == Ok::<Seq<char>, Error>(text@),
                Err(error) => subject_of(self@) == Err::<Seq<char>, Error>(error),
            },
    {
        match self.get_header(&HeaderName::new(SUBJECT)) {
            Ok(value) => match value.as_text() {
                Some(text) => Ok(text),
                None => Err(Error::InvalidHeaderType),
            },
            Err(error) => Err(error),
        }
    }

    /// Returns the date of the mail
    pub fn date(&self) -> (date: Result<&DateTime, Error>)
        ensures
            match date {
                Ok(datetime) => date_of(self@) == Ok::<DateTime, Error>(*datetime),
                Err(error) => date_of(self@) == Err::<DateTime, Error>(error),
            },
    {
        match self.get_header(&HeaderName::new(DATE)) {
            Ok(value) => match value.as_datetime() {
                Some(datetime) => Ok(datetime),
                None => Err(Error::InvalidHeaderType),
            },
            Err(error) => Err(error),
        }
    }

    /// Returns the sender of the mail
    pub fn sender(&self) -> (sender: Result<&Address, Error>)
        ensures
            match sender {
                Ok(address) => sender_of(self@) == Ok::<AddressView, Error>(address@),
                Err(error) => sender_of(self@) == Err::<AddressView, Error>(error),
            },
    {
        match self.get_header(&HeaderName::new(FROM)) {
            Ok(value) => match value.as_address() {
                Some(address) => Ok(address),
                None => Err(Error::InvalidHeaderType),
            },
            Err(error) => Err(error),
        }
    }

    /// Returns the id under which the mail was fetched
    pub fn uid(&self) -> (uid: u32)
        ensures
            uid == self@.uid,
    {
        self.uid
    }

    /// Returns the HTML version of the mail content, if there is one
    pub fn html(&self) -> (html: Option<&str>)
        ensures
            html.deep_view() == self@.html,
    {
        match &self.html {
            Some(html) => Some(html.as_str()),
            None => None,
        }
    }

    /// Returns the plain text version of the mail content, if there is one
    pub fn to_plain_body(&self) -> (text: Option<&str>)
        ensures
            text.deep_view() == self@.text,
    {
        match &self.text {
            Some(text) => Some(text.as_str()),
            None => None,
        }
    }
}

} // verus!
