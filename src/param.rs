//! Typed parameter sets of the endpoints and their query strings.
use vstd::prelude::*;
use crate::query::{
    contains_text, decimal, decimal_string, ends_with, lacks_char, lemma_no_forged_parameter,
    no_name_yields, opt_view, params_into_query_string, query_string, ParamView,
};

verus! {

/// A parameter set that renders itself as a query string, by reference.
pub trait ToQueryString {
    fn to_query_string(&self) -> String;
}

/// A parameter set that renders itself as a query string, consuming itself.
pub trait IntoQueryString {
    fn into_query_string(self) -> String;
}

/// The view of an optional number as a parameter value.
pub open spec fn opt_decimal(n: Option<u64>) -> Option<Seq<char>> {
    match n {
        Some(v) => Some(decimal(v as nat)),
        None => None,
    }
}

/// The optional number of a `u32` field, widened.
pub open spec fn wide32(n: Option<u32>) -> Option<u64> {
    match n {
        Some(v) => Some(v as u64),
        None => None,
    }
}

/// The optional number of a `u8` field, widened.
pub open spec fn wide8(n: Option<u8>) -> Option<u64> {
    match n {
        Some(v) => Some(v as u64),
        None => None,
    }
}

fn opt_decimal_string(n: Option<u64>) -> (r: Option<String>)
    ensures
        opt_view(r) == opt_decimal(n),
{
    match n {
        Some(v) => Some(decimal_string(v)),
        None => None,
    }
}

fn opt_clone(s: &Option<String>) -> (r: Option<String>)
    ensures
        opt_view(r) == opt_view(*s),
{
    match s {
        Some(v) => Some(v.clone()),
        None => None,
    }
}

fn widen32(n: Option<u32>) -> (r: Option<u64>)
    ensures
        r == wide32(n),
{
    match n {
        Some(v) => Some(v as u64),
        None => None,
    }
}

fn widen8(n: Option<u8>) -> (r: Option<u64>)
    ensures
        r == wide8(n),
{
    match n {
        Some(v) => Some(v as u64),
        None => None,
    }
}

/// The parameters `offset` and `limit`, in that order.
pub open spec fn paging_params(offset: Option<u32>, limit: Option<u8>) -> Seq<ParamView> {
    seq![("offset"@, opt_decimal(wide32(offset))), ("limit"@, opt_decimal(wide8(limit)))]
}

fn paging_query_string(offset: Option<u32>, limit: Option<u8>) -> (r: String)
    ensures
        r@ == query_string(paging_params(offset, limit)),
{
    let params = vec![
        ("offset", opt_decimal_string(widen32(offset))),
        ("limit", opt_decimal_string(widen8(limit))),
    ];
    let r = params_into_query_string(params);
    assert(crate::query::params_view(params@) == paging_params(offset, limit));
    r
}

/// Parameters of the top games: pagination offset and limit.
#[derive(Debug, Clone, Hash, PartialEq, Eq)]
pub struct TopGamesParams {
    pub offset: Option<u32>,
    pub limit: Option<u8>,
}

impl TopGamesParams {
    /// The parameters in query order.
    pub open spec fn params(&self) -> Seq<ParamView> {
        paging_params(self.offset, self.limit)
    }

    /// A parameter set with nothing set, so that the server's defaults apply.
    pub fn new() -> (r: TopGamesParams)
        ensures
            r.offset.is_none(),
            r.limit.is_none(),
    {
        TopGamesParams { offset: None, limit: None }
    }

    /// Sets the pagination offset.
    pub fn with_offset(self, offset: u32) -> (r: TopGamesParams)
        ensures
            r.offset == Some(offset),
            r.limit == self.limit,
    {
        TopGamesParams { offset: Some(offset), ..self }
    }

    /// Sets the maximum number of objects in the result.
    pub fn with_limit(self, limit: u8) -> (r: TopGamesParams)
        ensures
            r.offset == self.offset,
            r.limit == Some(limit),
    {
        TopGamesParams { limit: Some(limit), ..self }
    }

    /// The pagination offset, if set.
    pub fn offset(&self) -> (r: Option<u32>)
        ensures
            r == self.offset,
    {
        self.offset
    }

    /// The limit, if set.
    pub fn limit(&self) -> (r: Option<u8>)
        ensures
            r == self.limit,
    {
        self.limit
    }
}

impl Default for TopGamesParams {
    fn default() -> (r: TopGamesParams)
        ensures
            r.offset.is_none(),
            r.limit.is_none(),
    {
        TopGamesParams::new()
    }
}

impl ToQueryString for TopGamesParams {
    fn to_query_string(&self) -> (r: String)
        ensures
            r@ == query_string(self.params()),
    {
        paging_query_string(self.offset, self.limit)
    }
}

impl IntoQueryString for TopGamesParams {
    fn into_query_string(self) -> (r: String)
        ensures
            r@ == query_string(self.params()),
    {
        paging_query_string(self.offset, self.limit)
    }
}

/// Builder of `TopGamesParams`.
#[derive(Debug)]
pub struct TopGamesParamsBuilder {
    pub offset: Option<u32>,
    pub limit: Option<u8>,
}

impl TopGamesParamsBuilder {
    /// A builder with nothing set.
    pub fn new() -> (r: TopGamesParamsBuilder)
        ensures
            r.offset.is_none(),
            r.limit.is_none(),
    {
        TopGamesParamsBuilder { offset: None, limit: None }
    }

    /// Sets the pagination offset.
    pub fn offset(self, offset: u32) -> (r: TopGamesParamsBuilder)
        ensures
            r.offset == Some(offset),
            r.limit == self.limit,
    {
        TopGamesParamsBuilder { offset: Some(offset), ..self }
    }

    /// Sets the maximum number of objects in the result.
    pub fn limit(self, limit: u8) -> (r: TopGamesParamsBuilder)
        ensures
            r.offset == self.offset,
            r.limit == Some(limit),
    {
        TopGamesParamsBuilder { limit: Some(limit), ..self }
    }

    /// The parameter set with the values set so far.
    pub fn build(self) -> (r: TopGamesParams)
        ensures
            r.offset == self.offset,
            r.limit == self.limit,
    {
        TopGamesParams { offset: self.offset, limit: self.limit }
    }
}

impl Default for TopGamesParamsBuilder {
    fn default() -> (r: TopGamesParamsBuilder)
        ensures
            r.offset.is_none(),
            r.limit.is_none(),
    {
        TopGamesParamsBuilder::new()
    }
}

/// The kind of streams to list.
#[derive(Debug, Copy, Clone, Hash, PartialEq, Eq)]
pub enum StreamType {
    /// All streams.
    All,
    /// Playlists only.
    Playlist,
    /// Live streams only.
    Live,
}

impl StreamType {
    /// The query value of the stream type, in lower case.
    pub open spec fn value(&self) -> Seq<char> {
        match self {
            StreamType::All => "all"@,
            StreamType::Playlist => "playlist"@,
            StreamType::Live => "live"@,
        }
    }

    /// Renders the stream type as its query value.
    pub fn to_query_string_value(&self) -> (r: String)
        ensures
            r@ == self.value(),
    {
        match self {
            StreamType::All => String::from_str("all"),
            StreamType::Playlist => String::from_str("playlist"),
            StreamType::Live => String::from_str("live"),
        }
    }
}

/// The values of a list joined by commas, in order.
pub open spec fn join_commas(items: Seq<Seq<char>>) -> Seq<char>
    decreases items.len(),
{
    if items.len() == 0 {
        seq![]
    } else if items.len() == 1 {
        items[0]
    } else {
        join_commas(items.drop_last()) + seq![','] + items.last()
    }
}

/// The views of a list of strings.
pub open spec fn strings_view(items: Seq<String>) -> Seq<Seq<char>> {
    items.map_values(|s: String| s@)
}

/// The value of a list parameter: absent when the list is empty.
pub open spec fn list_value(items: Seq<String>) -> Option<Seq<char>> {
    if items.len() == 0 {
        None
    } else {
        Some(join_commas(strings_view(items)))
    }
}

fn join_with_commas(items: &Vec<String>) -> (r: String)
    ensures
        r@ == join_commas(strings_view(items@)),
{
    let mut joined = String::new();
    let mut i: usize = 0;
    while i < items.len()
        invariant
            i <= items@.len(),
            joined@ == join_commas(strings_view(items@).take(i as int)),
        decreases items.len() - i,
    {
        assert(strings_view(items@).take(i + 1).drop_last() == strings_view(items@).take(i as int));
        if i > 0 {
            proof {
                reveal_strlit(",");
            }
            joined.append(",");
        }
        joined.append(items[i].as_str());
        i += 1;
    }
    assert(strings_view(items@).take(items@.len() as int) == strings_view(items@));
    joined
}

fn list_param(items: &Vec<String>) -> (r: Option<String>)
    ensures
        opt_view(r) == list_value(items@),
{
    if items.len() == 0 {
        None
    } else {
        Some(join_with_commas(items))
    }
}

fn stream_type_param(t: Option<StreamType>) -> (r: Option<String>)
    ensures
        opt_view(r) == stream_type_value(t),
{
    match t {
        Some(v) => Some(v.to_query_string_value()),
        None => None,
    }
}

/// The query value of an optional stream type.
pub open spec fn stream_type_value(t: Option<StreamType>) -> Option<Seq<char>> {
    match t {
        Some(v) => Some(v.value()),
        None => None,
    }
}

/// Parameters of the stream listing.
#[derive(Debug, Clone, Hash, PartialEq, Eq)]
pub struct StreamsParams {
    pub game: Option<String>,
    pub channels: Vec<String>,
    pub offset: Option<u32>,
    pub limit: Option<u8>,
    pub client_id: Option<String>,
    pub stream_type: Option<StreamType>,
}

impl StreamsParams {
    /// The parameters in query order; the channels form one comma-joined value.
    pub open spec fn params(&self) -> Seq<ParamView> {
        seq![
            ("game"@, opt_view(self.game)),
            ("channel"@, list_value(self.channels@)),
            ("offset"@, opt_decimal(wide32(self.offset))),
            ("limit"@, opt_decimal(wide8(self.limit))),
            ("client_id"@, opt_view(self.client_id)),
            ("stream_type"@, stream_type_value(self.stream_type)),
        ]
    }

    /// A parameter set with nothing set, so that the server's defaults apply.
    pub fn new() -> (r: StreamsParams)
        ensures
            r.game.is_none(),
            r.channels@.len() == 0,
            r.offset.is_none(),
            r.limit.is_none(),
            r.client_id.is_none(),
            r.stream_type.is_none(),
    {
        StreamsParams {
            game: None,
            channels: Vec::new(),
            offset: None,
            limit: None,
            client_id: None,
            stream_type: None,
        }
    }

    /// Lists only streams of a game.
    pub fn with_game(self, game: &str) -> (r: StreamsParams)
        ensures
            opt_view(r.game) == Some(game@),
            r.channels == self.channels,
            r.offset == self.offset,
            r.limit == self.limit,
            r.client_id == self.client_id,
            r.stream_type == self.stream_type,
    {
        StreamsParams { game: Some(game.to_owned()), ..self }
    }

    /// Adds a channel to the list of channels.
    pub fn with_channel(self, channel: &str) -> (r: StreamsParams)
        ensures
            strings_view(r.channels@) == strings_view(self.channels@).push(channel@),
            r.game == self.game,
            r.offset == self.offset,
            r.limit == self.limit,
            r.client_id == self.client_id,
            r.stream_type == self.stream_type,
    {
        let mut channels = self.channels;
        let ghost before = channels@;
        channels.push(channel.to_owned());
        assert(strings_view(channels@) == strings_view(before).push(channel@));
        StreamsParams { channels, ..self }
    }

    /// Replaces the list of channels; an empty list restores the default.
    pub fn with_channels(self, channels: Vec<String>) -> (r: StreamsParams)
        ensures
            r.channels == channels,
            r.game == self.game,
            r.offset == self.offset,
            r.limit == self.limit,
            r.client_id == self.client_id,
            r.stream_type == self.stream_type,
    {
        StreamsParams { channels, ..self }
    }

    /// Sets the pagination offset.
    pub fn with_offset(self, offset: u32) -> (r: StreamsParams)
        ensures
            r.offset == Some(offset),
            r.game == self.game,
            r.channels == self.channels,
            r.limit == self.limit,
            r.client_id == self.client_id,
            r.stream_type == self.stream_type,
    {
        StreamsParams { offset: Some(offset), ..self }
    }

    /// Sets the maximum number of objects in the result.
    pub fn with_limit(self, limit: u8) -> (r: StreamsParams)
        ensures
            r.limit == Some(limit),
            r.game == self.game,
            r.channels == self.channels,
            r.offset == self.offset,
            r.client_id == self.client_id,
            r.stream_type == self.stream_type,
    {
        StreamsParams { limit: Some(limit), ..self }
    }

    /// Lists only streams from applications of a client id.
    pub fn with_client_id(self, client_id: &str) -> (r: StreamsParams)
        ensures
            opt_view(r.client_id) == Some(client_id@),
            r.game == self.game,
            r.channels == self.channels,
            r.offset == self.offset,
            r.limit == self.limit,
            r.stream_type == self.stream_type,
    {
        StreamsParams { client_id: Some(client_id.to_owned()), ..self }
    }

    /// Lists only streams of a kind.
    pub fn with_stream_type(self, stream_type: StreamType) -> (r: StreamsParams)
        ensures
            r.stream_type == Some(stream_type),
            r.game == self.game,
            r.channels == self.channels,
            r.offset == self.offset,
            r.limit == self.limit,
            r.client_id == self.client_id,
    {
        StreamsParams { stream_type: Some(stream_type), ..self }
    }

    fn render(&self) -> (r: String)
        ensures
            r@ == query_string(self.params()),
    {
        let params = vec![
            ("game", opt_clone(&self.game)),
            ("channel", list_param(&self.channels)),
            ("offset", opt_decimal_string(widen32(self.offset))),
            ("limit", opt_decimal_string(widen8(self.limit))),
            ("client_id", opt_clone(&self.client_id)),
            ("stream_type", stream_type_param(self.stream_type)),
        ];
        let r = params_into_query_string(params);
        assert(crate::query::params_view(params@) == self.params());
        r
    }
}

proof fn lemma_literal_name(name: &str)
    requires
        name == "game" || name == "offset" || name == "limit" || name == "client_id" || name
            == "stream_type",
    ensures
        lacks_char(name@, '='),
        !ends_with(name@, "channel"@),
{
    reveal_strlit("channel");
    reveal_strlit("game");
    reveal_strlit("offset");
    reveal_strlit("limit");
    reveal_strlit("client_id");
    reveal_strlit("stream_type");
    assert forall|i: int| 0 <= i < name@.len() implies #[trigger] name@[i] != '=' by {}
    if name == "client_id" {
        assert(name@.subrange(2, 9)[0] != "channel"@[0]);
    }
    if name == "stream_type" {
        assert(name@.subrange(4, 11)[0] != "channel"@[0]);
    }
}

/// With an empty channel list the query of the stream parameters holds no
/// `channel=`, whatever the other values are.
pub proof fn lemma_empty_channels_leave_no_channel(p: StreamsParams)
    requires
        p.channels@.len() == 0,
    ensures
        !contains_text(query_string(p.params()), "channel="@),
{
    reveal_strlit("channel");
    reveal_strlit("channel=");
    lemma_literal_name("game");
    lemma_literal_name("offset");
    lemma_literal_name("limit");
    lemma_literal_name("client_id");
    lemma_literal_name("stream_type");
    let params = p.params();
    assert forall|i: int| 0 <= i < params.len() && (#[trigger] params[i]).1.is_some() implies lacks_char(
        params[i].0,
        '=',
    ) && !ends_with(params[i].0, "channel"@) by {}
    assert(no_name_yields(params, "channel"@));
    assert forall|i: int| 0 <= i < "channel"@.len() implies #[trigger] "channel"@[i] != '=' && "channel"@[i]
        != '&' && "channel"@[i] != '?' by {}
    assert("channel"@.push('=') =~= "channel="@);
    lemma_no_forged_parameter(params, "channel"@);
}

impl Default for StreamsParams {
    fn default() -> (r: StreamsParams)
        ensures
            r.game.is_none(),
            r.channels@.len() == 0,
            r.offset.is_none(),
            r.limit.is_none(),
            r.client_id.is_none(),
            r.stream_type.is_none(),
    {
        StreamsParams::new()
    }
}

impl ToQueryString for StreamsParams {
    fn to_query_string(&self) -> (r: String)
        ensures
            r@ == query_string(self.params()),
    {
        self.render()
    }
}

impl IntoQueryString for StreamsParams {
    fn into_query_string(self) -> (r: String)
        ensures
            r@ == query_string(self.params()),
    {
        self.render()
    }
}

/// Parameters of the featured streams: pagination offset and limit.
#[derive(Debug, Clone, Hash, PartialEq, Eq)]
pub struct FeaturedStreamsParams {
    pub offset: Option<u32>,
    pub limit: Option<u8>,
}

impl FeaturedStreamsParams {
    /// The parameters in query order.
    pub open spec fn params(&self) -> Seq<ParamView> {
        paging_params(self.offset, self.limit)
    }

    /// A parameter set with nothing set, so that the server's defaults apply.
    pub fn new() -> (r: FeaturedStreamsParams)
        ensures
            r.offset.is_none(),
            r.limit.is_none(),
    {
        FeaturedStreamsParams { offset: None, limit: None }
    }

    /// Sets the pagination offset.
    pub fn with_offset(self, offset: u32) -> (r: FeaturedStreamsParams)
        ensures
            r.offset == Some(offset),
            r.limit == self.limit,
    {
        FeaturedStreamsParams { offset: Some(offset), ..self }
    }

    /// Sets the maximum number of objects in the result.
    pub fn with_limit(self, limit: u8) -> (r: FeaturedStreamsParams)
        ensures
            r.offset == self.offset,
            r.limit == Some(limit),
    {
        FeaturedStreamsParams { limit: Some(limit), ..self }
    }
}

impl Default for FeaturedStreamsParams {
    fn default() -> (r: FeaturedStreamsParams)
        ensures
            r.offset.is_none(),
            r.limit.is_none(),
    {
        FeaturedStreamsParams::new()
    }
}

impl ToQueryString for FeaturedStreamsParams {
    fn to_query_string(&self) -> (r: String)
        ensures
            r@ == query_string(self.params()),
    {
        paging_query_string(self.offset, self.limit)
    }
}

impl IntoQueryString for FeaturedStreamsParams {
    fn into_query_string(self) -> (r: String)
        ensures
            r@ == query_string(self.params()),
    {
        paging_query_string(self.offset, self.limit)
    }
}

/// Parameters of the streams summary: an optional game.
#[derive(Debug, Clone, Hash, PartialEq, Eq)]
pub struct StreamsSummaryParams {
    pub game: Option<String>,
}

impl StreamsSummaryParams {
    /// The parameters in query order.
    pub open spec fn params(&self) -> Seq<ParamView> {
        seq![("game"@, opt_view(self.game))]
    }

    /// A parameter set with nothing set, so that the server's defaults apply.
    pub fn new() -> (r: StreamsSummaryParams)
        ensures
            r.game.is_none(),
    {
        StreamsSummaryParams { game: None }
    }

    /// Summarises only streams of a game.
    pub fn with_game(self, game: &str) -> (r: StreamsSummaryParams)
        ensures
            opt_view(r.game) == Some(game@),
    {
        StreamsSummaryParams { game: Some(game.to_owned()) }
    }

    fn render(&self) -> (r: String)
        ensures
            r@ == query_string(self.params()),
    {
        let params = vec![("game", opt_clone(&self.game))];
        let r = params_into_query_string(params);
        assert(crate::query::params_view(params@) == self.params());
        r
    }
}

impl Default for StreamsSummaryParams {
    fn default() -> (r: StreamsSummaryParams)
        ensures
            r.game.is_none(),
    {
        StreamsSummaryParams::new()
    }
}

impl ToQueryString for StreamsSummaryParams {
    fn to_query_string(&self) -> (r: String)
        ensures
            r@ == query_string(self.params()),
    {
        self.render()
    }
}

impl IntoQueryString for StreamsSummaryParams {
    fn into_query_string(self) -> (r: String)
        ensures
            r@ == query_string(self.params()),
    {
        self.render()
    }
}

} // verus!
