//! Reading the routing daemon's table: a stream of text lines, each a
//! record of space-separated words, ended by the line `ok`.

use crate::address::{IpAddress, Prefix};
use crate::route::{route_views, Route, RouteView};
use ip_network::IpNetwork;
use vstd::prelude::*;
use vstd::string::*;
use vstd::utf8::is_ascii_chars;

verus! {

/// Why the daemon's output could not be read.
#[derive(Clone, Copy, Debug, PartialEq, Eq, Structural)]
pub enum ProtocolError {
    /// A line holds a character outside ASCII.
    NotAscii,
    /// The greeting does not start with a protocol name and version.
    BadBanner,
    /// A record of a known kind stands under a verb that is not `add`.
    UnknownVerb,
    /// A record lacks a field that it must have.
    MissingField,
    /// The `installed` field of a route is neither `yes` nor `no`.
    BadFlag,
    /// A numeric field is not a decimal number that fits 64 bits.
    BadNumber,
    /// The prefix of a route is not a network in CIDR notation.
    BadPrefix,
    /// The lines end before the closing `ok`.
    Truncated,
    /// The table ended without stating the node's own fee.
    MissingLocalFee,
}

/// A neighbour as the daemon lists it: its link address, as the daemon
/// wrote it, and the local interface on which it is heard.
#[derive(Debug, PartialEq, Eq)]
pub struct NeighbourLink {
    pub address: String,
    pub iface: String,
}

/// A listed neighbour as a mathematical value.
pub struct NeighbourLinkView {
    pub address: Seq<char>,
    pub iface: Seq<char>,
}

impl View for NeighbourLink {
    type V = NeighbourLinkView;

    open spec fn view(&self) -> NeighbourLinkView {
        NeighbourLinkView { address: self.address@, iface: self.iface@ }
    }
}

/// The listed neighbours of a list as mathematical values.
pub open spec fn link_views(links: Seq<NeighbourLink>) -> Seq<NeighbourLinkView> {
    Seq::new(links.len(), |i: int| links[i]@)
}

/// One line of the daemon's output, as far as the accounting reads it.
#[derive(Debug, PartialEq, Eq)]
pub enum Record {
    Route(Route),
    Neighbour(NeighbourLink),
    LocalFee(u64),
    /// The closing line `ok`.
    End,
    /// A line that is passed over.
    Other,
}

/// A record as a mathematical value.
pub enum RecordView {
    Route(RouteView),
    Neighbour(NeighbourLinkView),
    LocalFee(u64),
    End,
    Other,
}

impl View for Record {
    type V = RecordView;

    open spec fn view(&self) -> RecordView {
        match self {
            Record::Route(r) => RecordView::Route(r@),
            Record::Neighbour(n) => RecordView::Neighbour(n@),
            Record::LocalFee(f) => RecordView::LocalFee(*f),
            Record::End => RecordView::End,
            Record::Other => RecordView::Other,
        }
    }
}

/// The words of a line: the pieces between single spaces. A line with `n`
/// spaces has `n + 1` words, some of which may be empty.
pub open spec fn split_spaces(s: Seq<char>) -> Seq<Seq<char>>
    decreases s.len(),
{
    if s.len() == 0 {
        seq![Seq::<char>::empty()]
    } else {
        let before = split_spaces(s.drop_last());
        if s.last() == ' ' {
            before.push(Seq::<char>::empty())
        } else {
            before.drop_last().push(before.last().push(s.last()))
        }
    }
}

/// The texts of a list of strings.
pub open spec fn texts(v: Seq<String>) -> Seq<Seq<char>> {
    Seq::new(v.len(), |k: int| v[k]@)
}

/// Whether a character is a decimal digit.
pub open spec fn is_digit(c: char) -> bool {
    '0' <= c <= '9'
}

/// The number that a sequence of decimal digits writes.
pub open spec fn digits_value(s: Seq<char>) -> nat
    decreases s.len(),
{
    if s.len() == 0 {
        0
    } else {
        digits_value(s.drop_last()) * 10 + ((s.last() as nat) - ('0' as nat)) as nat
    }
}

/// The number that a word writes: the word is one or more decimal digits
/// and nothing else, and the number fits 64 bits.
pub open spec fn number_of(s: Seq<char>) -> Option<u64> {
    if s.len() > 0 && (forall|i: int| 0 <= i < s.len() ==> is_digit(#[trigger] s[i]))
        && digits_value(s) <= u64::MAX {
        Some(digits_value(s) as u64)
    } else {
        None
    }
}

/// The digits of a word write no less than its first `i` digits do.
proof fn lemma_digits_grow(s: Seq<char>, i: int)
    requires
        0 <= i <= s.len(),
    ensures
        digits_value(s.take(i)) <= digits_value(s),
    decreases s.len() - i,
{
    if i < s.len() {
        assert(s.take(i + 1).drop_last() =~= s.take(i));
        lemma_digits_grow(s, i + 1);
    } else {
        assert(s.take(i) =~= s);
    }
}

/// Reads a word as a non-negative decimal number.
pub fn parse_number(word: &String) -> (r: Option<u64>)
    ensures
        r == number_of(word@),
{
    if !word.is_ascii() {
        assert(exists|i: int| 0 <= i < word@.len() && !is_digit(#[trigger] word@[i]));
        return None;
    }
    let text = word.as_str();
    let n = text.unicode_len();
    if n == 0 {
        return None;
    }
    let mut acc: u64 = 0;
    let mut i: usize = 0;
    while i < n
        invariant
            i <= n,
            n == text@.len(),
            text@ == word@,
            text.is_ascii(),
            forall|j: int| 0 <= j < i ==> is_digit(#[trigger] word@[j]),
            acc == digits_value(word@.take(i as int)),
        decreases n - i,
    {
        let b = text.get_ascii(i);
        if b < 48 || b > 57 {
            assert(!is_digit(word@[i as int]));
            return None;
        }
        let d: u64 = (b - 48) as u64;
        proof {
            assert(word@.take(i + 1).drop_last() =~= word@.take(i as int));
            assert(word@.take(i + 1).last() == word@[i as int]);
            lemma_digits_grow(word@, i + 1);
        }
        if acc > (u64::MAX - d) / 10 {
            return None;
        }
        acc = acc * 10 + d;
        i += 1;
    }
    assert(word@.take(n as int) =~= word@);
    Some(acc)
}

/// Splits a line into its words.
fn split_ascii(line: &str) -> (tokens: Vec<String>)
    requires
        line.is_ascii(),
    ensures
        texts(tokens@) == split_spaces(line@),
        tokens@.len() >= 1,
{
    let n = line.unicode_len();
    let mut tokens: Vec<String> = Vec::new();
    let mut start: usize = 0;
    let mut i: usize = 0;
    assert(split_spaces(line@.take(0)) =~~= texts(tokens@).push(line@.subrange(0, 0)));
    while i < n
        invariant
            start <= i <= n,
            n == line@.len(),
            line.is_ascii(),
            split_spaces(line@.take(i as int)) == texts(tokens@).push(
                line@.subrange(start as int, i as int),
            ),
        decreases n - i,
    {
        let b = line.get_ascii(i);
        proof {
            assert(line@.take(i + 1).drop_last() =~= line@.take(i as int));
            assert(line@.take(i + 1).last() == line@[i as int]);
        }
        let ghost before = texts(tokens@);
        let ghost piece = line@.subrange(start as int, i as int);
        if b == 32 {
            tokens.push(String::from_str(line.substring_ascii(start, i)));
            start = i + 1;
            assert(texts(tokens@) =~~= before.push(piece));
            assert(line@.subrange(start as int, i + 1) =~= Seq::<char>::empty());
            assert(split_spaces(line@.take(i + 1)) =~~= texts(tokens@).push(
                line@.subrange(start as int, i + 1),
            ));
        } else {
            assert(before.push(piece).drop_last() =~~= before);
            assert(piece.push(line@[i as int]) =~= line@.subrange(start as int, i + 1));
            assert(split_spaces(line@.take(i + 1)) =~~= texts(tokens@).push(
                line@.subrange(start as int, i + 1),
            ));
        }
        i += 1;
    }
    let ghost before = texts(tokens@);
    tokens.push(String::from_str(line.substring_ascii(start, n)));
    assert(line@.take(n as int) =~= line@);
    assert(texts(tokens@) =~~= before.push(line@.subrange(start as int, n as int)));
    tokens
}

/// The word that follows the first word equal to `key`, looking from
/// position `from` on.
pub open spec fn field(tokens: Seq<Seq<char>>, key: Seq<char>, from: int) -> Option<Seq<char>>
    decreases tokens.len() - from,
{
    if from < 0 || from + 1 >= tokens.len() {
        None
    } else if tokens[from] == key {
        Some(tokens[from + 1])
    } else {
        field(tokens, key, from + 1)
    }
}

/// Finds the position of the first word equal to `key` that another word
/// follows, looking from position `from` on.
pub fn find_field(tokens: &Vec<String>, key: &str, from: usize) -> (r: Option<usize>)
    ensures
        match r {
            Some(k) => from <= k && k + 1 < tokens.len() && tokens@[k as int]@ == key@ && field(
                texts(tokens@),
                key@,
                from as int,
            ) == Some(tokens@[k + 1]@),
            None => field(texts(tokens@), key@, from as int).is_none(),
        },
{
    let wanted = String::from_str(key);
    let mut k: usize = from;
    while k < tokens.len() && k + 1 < tokens.len()
        invariant
            from <= k,
            wanted@ == key@,
            field(texts(tokens@), key@, from as int) == field(texts(tokens@), key@, k as int),
        decreases tokens.len() - k,
    {
        if tokens[k] == wanted {
            return Some(k);
        }
        k += 1;
    }
    None
}

/// The kinds of record that the daemon is known to send.
pub open spec fn is_known_kind(t: Seq<char>) -> bool {
    t == "route"@ || t == "xroute"@ || t == "neighbour"@ || t == "interface"@
}

/// The keys whose value is a number.
pub open spec fn is_numeric_key(t: Seq<char>) -> bool {
    t == "price"@ || t == "fee"@ || t == "metric"@ || t == "refmetric"@ || t == "cost"@ || t
        == "rxcost"@ || t == "txcost"@ || t == "rttcost"@
}

/// Whether every numeric key of a record, from position `from` on, is
/// followed by a number.
pub open spec fn numbers_ok_from(tokens: Seq<Seq<char>>, from: int) -> bool
    decreases tokens.len() - from,
{
    if from < 0 || from + 1 >= tokens.len() {
        true
    } else {
        (is_numeric_key(tokens[from]) ==> number_of(tokens[from + 1]).is_some())
            && numbers_ok_from(tokens, from + 1)
    }
}

/// Whether every numeric key among a record's fields is followed by a
/// number.
pub open spec fn numbers_ok(tokens: Seq<Seq<char>>) -> bool {
    numbers_ok_from(tokens, 2)
}

/// Whether a word reads `text`.
fn word_is(word: &String, text: &str) -> (r: bool)
    ensures
        r == (word@ == text@),
{
    let wanted = String::from_str(text);
    *word == wanted
}

/// Whether a word names a known kind of record.
fn known_kind(word: &String) -> (r: bool)
    ensures
        r == is_known_kind(word@),
{
    word_is(word, "route") || word_is(word, "xroute") || word_is(word, "neighbour") || word_is(
        word,
        "interface",
    )
}

/// Whether a word is a key whose value is a number.
fn numeric_key(word: &String) -> (r: bool)
    ensures
        r == is_numeric_key(word@),
{
    word_is(word, "price") || word_is(word, "fee") || word_is(word, "metric") || word_is(
        word,
        "refmetric",
    ) || word_is(word, "cost") || word_is(word, "rxcost") || word_is(word, "txcost") || word_is(
        word,
        "rttcost",
    )
}

/// In a record whose numbers are in order, the word after a numeric key
/// is a number.
pub proof fn lemma_number_follows(tokens: Seq<Seq<char>>, from: int, k: int)
    requires
        numbers_ok_from(tokens, from),
        0 <= from <= k,
        k + 1 < tokens.len(),
        is_numeric_key(tokens[k]),
    ensures
        number_of(tokens[k + 1]).is_some(),
    decreases k - from,
{
    if from < k {
        lemma_number_follows(tokens, from + 1, k);
    }
}

/// Checks that every numeric key of a record is followed by a number.
pub fn check_numbers(tokens: &Vec<String>) -> (r: bool)
    ensures
        r == numbers_ok(texts(tokens@)),
{
    let mut k: usize = 2;
    while k < tokens.len() && k + 1 < tokens.len()
        invariant
            2 <= k,
            numbers_ok(texts(tokens@)) == numbers_ok_from(texts(tokens@), k as int),
        decreases tokens.len() - k,
    {
        assert(texts(tokens@)[k as int] == tokens@[k as int]@);
        assert(texts(tokens@)[k + 1] == tokens@[k + 1]@);
        if numeric_key(&tokens[k]) {
            if parse_number(&tokens[k + 1]).is_none() {
                return false;
            }
        }
        k += 1;
    }
    true
}

/// The network that a text in CIDR notation names, as the `ip_network`
/// crate reads it; `None` where it reads none.
pub uninterp spec fn prefix_of_text(text: Seq<char>) -> Option<Prefix>;

/// `IpNetwork::from_str` of the `ip_network` crate: the network address
/// and the mask length of the network that `text` names, or `None` where
/// the crate refuses the text.
#[verifier::external_body]
fn parse_prefix(text: &str) -> (r: Option<Prefix>)
    ensures
        r == prefix_of_text(text@),
{
    match text.parse::<IpNetwork>() {
        Ok(IpNetwork::V4(n)) => Some(
            Prefix { addr: IpAddress::V4(u32::from(n.network_address())), len: n.netmask() },
        ),
        Ok(IpNetwork::V6(n)) => Some(
            Prefix { addr: IpAddress::V6(u128::from(n.network_address())), len: n.netmask() },
        ),
        Err(_) => None,
    }
}

/// The route that the words of an `add route` record describe.
///
/// The record must name its prefix, whether it is installed, its price and
/// its interface; each numeric key must be followed by a number;
/// `installed` must be `yes` or `no`; and the prefix, handed in as
/// `prefix` the way it was read, must be a network.
pub open spec fn route_of(tokens: Seq<Seq<char>>, prefix: Option<Prefix>) -> Result<
    RouteView,
    ProtocolError,
> {
    let installed = field(tokens, "installed"@, 2);
    let price = field(tokens, "price"@, 2);
    let iface = field(tokens, "if"@, 2);
    if field(tokens, "prefix"@, 2).is_none() || installed.is_none() || price.is_none()
        || iface.is_none() {
        Err(ProtocolError::MissingField)
    } else if !numbers_ok(tokens) {
        Err(ProtocolError::BadNumber)
    } else if installed.unwrap() != "yes"@ && installed.unwrap() != "no"@ {
        Err(ProtocolError::BadFlag)
    } else {
        match prefix {
            None => Err(ProtocolError::BadPrefix),
            Some(p) => Ok(
                RouteView {
                    prefix: p,
                    iface: iface.unwrap(),
                    installed: installed.unwrap() == "yes"@,
                    price: number_of(price.unwrap()).unwrap(),
                },
            ),
        }
    }
}

/// Builds the route that the words of an `add route` record describe,
/// given what its prefix was read as.
pub fn build_route(tokens: &Vec<String>, prefix: Option<Prefix>) -> (r: Result<
    Route,
    ProtocolError,
>)
    ensures
        match r {
            Ok(route) => route_of(texts(tokens@), prefix) == Ok::<RouteView, ProtocolError>(
                route@,
            ),
            Err(e) => route_of(texts(tokens@), prefix) == Err::<RouteView, ProtocolError>(e),
        },
{
    let at_prefix = find_field(tokens, "prefix", 2);
    let at_installed = find_field(tokens, "installed", 2);
    let at_price = find_field(tokens, "price", 2);
    let at_iface = find_field(tokens, "if", 2);
    match (at_prefix, at_installed, at_price, at_iface) {
        (Some(_), Some(i), Some(p), Some(f)) => {
            if !check_numbers(tokens) {
                return Err(ProtocolError::BadNumber);
            }
            let yes = word_is(&tokens[i + 1], "yes");
            let no = word_is(&tokens[i + 1], "no");
            if !yes && !no {
                return Err(ProtocolError::BadFlag);
            }
            proof {
                assert(texts(tokens@)[p as int] == tokens@[p as int]@);
                assert(texts(tokens@)[p + 1] == tokens@[p + 1]@);
                lemma_number_follows(texts(tokens@), 2, p as int);
            }
            match (prefix, parse_number(&tokens[p + 1])) {
                (Some(net), Some(price)) => Ok(
                    Route { prefix: net, iface: tokens[f + 1].clone(), installed: yes, price },
                ),
                _ => Err(ProtocolError::BadPrefix),
            }
        },
        _ => Err(ProtocolError::MissingField),
    }
}

/// Reads the prefix of a route record.
fn read_prefix(tokens: &Vec<String>) -> (r: Option<Prefix>)
    ensures
        r == (match field(texts(tokens@), "prefix"@, 2) {
            Some(t) => prefix_of_text(t),
            None => None,
        }),
{
    match find_field(tokens, "prefix", 2) {
        Some(k) => parse_prefix(tokens[k + 1].as_str()),
        None => None,
    }
}

/// The neighbour that the words of an `add neighbour` record describe. The
/// record must name its address and its interface, and each numeric key
/// must be followed by a number.
pub open spec fn neighbour_of(tokens: Seq<Seq<char>>) -> Result<NeighbourLinkView, ProtocolError> {
    let address = field(tokens, "address"@, 2);
    let iface = field(tokens, "if"@, 2);
    if address.is_none() || iface.is_none() {
        Err(ProtocolError::MissingField)
    } else if !numbers_ok(tokens) {
        Err(ProtocolError::BadNumber)
    } else {
        Ok(NeighbourLinkView { address: address.unwrap(), iface: iface.unwrap() })
    }
}

/// Builds the neighbour that the words of an `add neighbour` record
/// describe.
pub fn build_neighbour(tokens: &Vec<String>) -> (r: Result<NeighbourLink, ProtocolError>)
    ensures
        match r {
            Ok(n) => neighbour_of(texts(tokens@)) == Ok::<NeighbourLinkView, ProtocolError>(n@),
            Err(e) => neighbour_of(texts(tokens@)) == Err::<NeighbourLinkView, ProtocolError>(e),
        },
{
    match (find_field(tokens, "address", 2), find_field(tokens, "if", 2)) {
        (Some(a), Some(f)) => {
            if !check_numbers(tokens) {
                return Err(ProtocolError::BadNumber);
            }
            Ok(NeighbourLink { address: tokens[a + 1].clone(), iface: tokens[f + 1].clone() })
        },
        _ => Err(ProtocolError::MissingField),
    }
}

/// What a line of the daemon's output says.
///
/// The closing line is the single word `ok`. A record is `add`, a kind and
/// fields; a route and a neighbour are read, another known kind is checked
/// for its numbers and passed over, an unknown kind is passed over. `local fee`
/// and `local price` state the node's own fee. A known kind under any
/// other verb is an error; every other line is passed over.
pub open spec fn record_of(line: Seq<char>) -> Result<RecordView, ProtocolError> {
    let tokens = split_spaces(line);
    if !is_ascii_chars(line) {
        Err(ProtocolError::NotAscii)
    } else if tokens.len() == 1 && tokens[0] == "ok"@ {
        Ok(RecordView::End)
    } else if tokens.len() < 2 {
        Ok(RecordView::Other)
    } else if tokens[0] == "add"@ {
        if tokens[1] == "route"@ {
            let prefix = match field(tokens, "prefix"@, 2) {
                Some(t) => prefix_of_text(t),
                None => None,
            };
            match route_of(tokens, prefix) {
                Ok(r) => Ok(RecordView::Route(r)),
                Err(e) => Err(e),
            }
        } else if tokens[1] == "neighbour"@ {
            match neighbour_of(tokens) {
                Ok(n) => Ok(RecordView::Neighbour(n)),
                Err(e) => Err(e),
            }
        } else if is_known_kind(tokens[1]) {
            if numbers_ok(tokens) {
                Ok(RecordView::Other)
            } else {
                Err(ProtocolError::BadNumber)
            }
        } else {
            Ok(RecordView::Other)
        }
    } else if tokens[0] == "local"@ && (tokens[1] == "fee"@ || tokens[1] == "price"@) {
        if tokens.len() < 3 {
            Err(ProtocolError::MissingField)
        } else {
            match number_of(tokens[2]) {
                Some(f) => Ok(RecordView::LocalFee(f)),
                None => Err(ProtocolError::BadNumber),
            }
        }
    } else if is_known_kind(tokens[1]) {
        Err(ProtocolError::UnknownVerb)
    } else {
        Ok(RecordView::Other)
    }
}

/// Reads one line of the daemon's output, given without its line end.
pub fn parse_line(line: &str) -> (r: Result<Record, ProtocolError>)
    ensures
        match r {
            Ok(rec) => record_of(line@) == Ok::<RecordView, ProtocolError>(rec@),
            Err(e) => record_of(line@) == Err::<RecordView, ProtocolError>(e),
        },
{
    if !line.is_ascii() {
        return Err(ProtocolError::NotAscii);
    }
    let tokens = split_ascii(line);
    assert(texts(tokens@)[0] == tokens@[0]@);
    if tokens.len() == 1 && word_is(&tokens[0], "ok") {
        return Ok(Record::End);
    }
    if tokens.len() < 2 {
        return Ok(Record::Other);
    }
    assert(texts(tokens@)[1] == tokens@[1]@);
    if word_is(&tokens[0], "add") {
        if word_is(&tokens[1], "route") {
            let prefix = read_prefix(&tokens);
            match build_route(&tokens, prefix) {
                Ok(route) => Ok(Record::Route(route)),
                Err(e) => Err(e),
            }
        } else if word_is(&tokens[1], "neighbour") {
            match build_neighbour(&tokens) {
                Ok(n) => Ok(Record::Neighbour(n)),
                Err(e) => Err(e),
            }
        } else if known_kind(&tokens[1]) {
            if check_numbers(&tokens) {
                Ok(Record::Other)
            } else {
                Err(ProtocolError::BadNumber)
            }
        } else {
            Ok(Record::Other)
        }
    } else if word_is(&tokens[0], "local") && (word_is(&tokens[1], "fee") || word_is(
        &tokens[1],
        "price",
    )) {
        if tokens.len() < 3 {
            Err(ProtocolError::MissingField)
        } else {
            assert(texts(tokens@)[2] == tokens@[2]@);
            match parse_number(&tokens[2]) {
                Some(f) => Ok(Record::LocalFee(f)),
                None => Err(ProtocolError::BadNumber),
            }
        }
    } else if known_kind(&tokens[1]) {
        Err(ProtocolError::UnknownVerb)
    } else {
        Ok(Record::Other)
    }
}

/// What one reading of the daemon's table gave.
#[derive(Debug, PartialEq, Eq)]
pub struct Snapshot {
    /// The routes, in the order in which they were sent.
    pub routes: Vec<Route>,
    /// The neighbours, in the order in which they were sent.
    pub neighbours: Vec<NeighbourLink>,
    /// The node's own fee, where the table stated it; the last statement
    /// counts.
    pub local_fee: Option<u64>,
}

/// A snapshot as a mathematical value.
pub struct SnapshotView {
    pub routes: Seq<RouteView>,
    pub neighbours: Seq<NeighbourLinkView>,
    pub local_fee: Option<u64>,
}

impl View for Snapshot {
    type V = SnapshotView;

    open spec fn view(&self) -> SnapshotView {
        SnapshotView {
            routes: route_views(self.routes@),
            neighbours: link_views(self.neighbours@),
            local_fee: self.local_fee,
        }
    }
}

/// The snapshot with no route, no neighbour and no fee.
pub open spec fn empty_snapshot() -> SnapshotView {
    SnapshotView { routes: Seq::empty(), neighbours: Seq::empty(), local_fee: None }
}

/// What the lines from position `from` on add to the snapshot `so_far`.
///
/// Lines are read in order up to the first closing line; what follows it
/// is not read. The first line that cannot be read gives its error, and
/// lines that end without a closing line are truncated.
pub open spec fn snapshot_of(lines: Seq<Seq<char>>, from: int, so_far: SnapshotView) -> Result<
    SnapshotView,
    ProtocolError,
>
    decreases lines.len() - from,
{
    if from < 0 || from >= lines.len() {
        Err(ProtocolError::Truncated)
    } else {
        match record_of(lines[from]) {
            Err(e) => Err(e),
            Ok(RecordView::End) => Ok(so_far),
            Ok(RecordView::Route(r)) => snapshot_of(
                lines,
                from + 1,
                SnapshotView { routes: so_far.routes.push(r), ..so_far },
            ),
            Ok(RecordView::Neighbour(n)) => snapshot_of(
                lines,
                from + 1,
                SnapshotView { neighbours: so_far.neighbours.push(n), ..so_far },
            ),
            Ok(RecordView::LocalFee(f)) => snapshot_of(
                lines,
                from + 1,
                SnapshotView { local_fee: Some(f), ..so_far },
            ),
            Ok(RecordView::Other) => snapshot_of(lines, from + 1, so_far),
        }
    }
}

/// Reads the daemon's table from its lines, each given without its line
/// end.
pub fn read_snapshot(lines: &Vec<String>) -> (r: Result<Snapshot, ProtocolError>)
    ensures
        match r {
            Ok(s) => snapshot_of(texts(lines@), 0, empty_snapshot()) == Ok::<
                SnapshotView,
                ProtocolError,
            >(s@),
            Err(e) => snapshot_of(texts(lines@), 0, empty_snapshot()) == Err::<
                SnapshotView,
                ProtocolError,
            >(e),
        },
{
    let mut snapshot = Snapshot { routes: Vec::new(), neighbours: Vec::new(), local_fee: None };
    assert(snapshot@.routes =~= Seq::<RouteView>::empty());
    assert(snapshot@.neighbours =~= Seq::<NeighbourLinkView>::empty());
    let mut i: usize = 0;
    while i < lines.len()
        invariant
            i <= lines.len(),
            snapshot_of(texts(lines@), 0, empty_snapshot()) == snapshot_of(
                texts(lines@),
                i as int,
                snapshot@,
            ),
        decreases lines.len() - i,
    {
        assert(texts(lines@)[i as int] == lines@[i as int]@);
        let ghost before = snapshot@;
        match parse_line(lines[i].as_str()) {
            Err(e) => {
                return Err(e);
            },
            Ok(Record::End) => {
                return Ok(snapshot);
            },
            Ok(Record::Route(route)) => {
                let ghost rv = route@;
                snapshot.routes.push(route);
                assert(snapshot@.routes =~= before.routes.push(rv));
            },
            Ok(Record::Neighbour(link)) => {
                let ghost lv = link@;
                snapshot.neighbours.push(link);
                assert(snapshot@.neighbours =~= before.neighbours.push(lv));
            },
            Ok(Record::LocalFee(f)) => {
                snapshot.local_fee = Some(f);
            },
            Ok(Record::Other) => {},
        }
        i += 1;
    }
    Err(ProtocolError::Truncated)
}

/// Whether a line is the banner that opens the daemon's greeting: the
/// protocol's name, `ALTHEA` or `BABEL`, and its version.
pub open spec fn is_banner(line: Seq<char>) -> bool {
    let tokens = split_spaces(line);
    is_ascii_chars(line) && tokens.len() == 2 && (tokens[0] == "ALTHEA"@ || tokens[0] == "BABEL"@)
}

/// What is wrong with a greeting, if anything: it must open with the
/// banner and close with the line `ok`.
pub open spec fn greeting_fault(lines: Seq<Seq<char>>) -> Option<ProtocolError> {
    if lines.len() == 0 || !is_banner(lines[0]) {
        Some(ProtocolError::BadBanner)
    } else if lines.last() != "ok"@ {
        Some(ProtocolError::Truncated)
    } else {
        None
    }
}

/// Checks the greeting with which the daemon opens a session, given as
/// its lines up to and including the first `ok`.
pub fn check_greeting(lines: &Vec<String>) -> (r: Result<(), ProtocolError>)
    ensures
        match r {
            Ok(_) => greeting_fault(texts(lines@)).is_none(),
            Err(e) => greeting_fault(texts(lines@)) == Some(e),
        },
{
    if lines.len() == 0 {
        return Err(ProtocolError::BadBanner);
    }
    assert(texts(lines@)[0] == lines@[0]@);
    assert(texts(lines@).last() == lines@[lines.len() - 1]@);
    let first = lines[0].as_str();
    if !first.is_ascii() {
        return Err(ProtocolError::BadBanner);
    }
    let tokens = split_ascii(first);
    assert(texts(tokens@)[0] == tokens@[0]@);
    if tokens.len() != 2 || !(word_is(&tokens[0], "ALTHEA") || word_is(&tokens[0], "BABEL")) {
        return Err(ProtocolError::BadBanner);
    }
    if !word_is(&lines[lines.len() - 1], "ok") {
        return Err(ProtocolError::Truncated);
    }
    Ok(())
}

} // verus!
