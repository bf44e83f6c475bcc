use vstd::prelude::*;

use crate::json::{bool_at, has_at, json_bool_at, json_has, json_str_at, json_u64_at, str_at, u64_at};

verus! {

/// Where the authorization server sends the browser back with a one-time code.
pub const REDIRECT_URI: &'static str = "http://localhost:8888/";

/// The permissions asked for at login.
pub const SCOPES: &'static str = "user-read-currently-playing user-read-playback-state user-modify-playback-state";

/// Why obtaining credentials failed.
#[derive(Debug, Clone, Copy, PartialEq, Eq, Structural)]
pub enum AuthError {
    /// A required client identifier is absent from the configuration.
    MissingConfig,
    /// The transport failed while talking to the token endpoint.
    NetworkFailure,
    /// The token endpoint answered without a required field.
    MalformedResponse,
}

/// The two client identifiers that every token exchange carries.
pub struct ClientConfig {
    pub client_id: String,
    pub client_secret: String,
}

impl ClientConfig {
    /// Builds the configuration, failing with `MissingConfig` exactly when
    /// either identifier is absent.
    pub fn new(client_id: Option<String>, client_secret: Option<String>) -> (r: Result<ClientConfig, AuthError>)
        ensures
            match (client_id, client_secret) {
                (Some(id), Some(secret)) => r matches Ok(c) && c.client_id == id && c.client_secret == secret,
                _ => r == Err::<ClientConfig, AuthError>(AuthError::MissingConfig),
            },
    {
        match (client_id, client_secret) {
            (Some(id), Some(secret)) => Ok(ClientConfig { client_id: id, client_secret: secret }),
            _ => Err(AuthError::MissingConfig),
        }
    }
}

/// A form-encoded token-exchange request: its fields, in order.
pub struct ExchangeRequest {
    pub params: Vec<(String, String)>,
}

/// The characters of each name and value of a list of form fields.
pub open spec fn form_view(params: Seq<(String, String)>) -> Seq<(Seq<char>, Seq<char>)> {
    params.map_values(|p: (String, String)| (p.0@, p.1@))
}

impl ExchangeRequest {
    pub open spec fn form(&self) -> Seq<(Seq<char>, Seq<char>)> {
        form_view(self.params@)
    }
}

/// The form of a refresh exchange that presents `secret`.
pub open spec fn refresh_form(config: ClientConfig, secret: Seq<char>) -> Seq<(Seq<char>, Seq<char>)> {
    seq![
        ("grant_type"@, "refresh_token"@),
        ("refresh_token"@, secret),
        ("client_id"@, config.client_id@),
        ("client_secret"@, config.client_secret@),
    ]
}

/// The form of the exchange that trades a one-time `code` for first credentials.
pub open spec fn code_form(config: ClientConfig, code: Seq<char>) -> Seq<(Seq<char>, Seq<char>)> {
    seq![
        ("grant_type"@, "authorization_code"@),
        ("code"@, code),
        ("redirect_uri"@, REDIRECT_URI@),
        ("client_id"@, config.client_id@),
        ("client_secret"@, config.client_secret@),
        ("scope"@, SCOPES@),
    ]
}

fn field(name: &str, value: &str) -> (r: (String, String))
    ensures
        r.0@ == name@,
        r.1@ == value@,
{
    (String::from_str(name), String::from_str(value))
}

/// What a successful token exchange hands back.
pub struct TokenGrant {
    pub access_token: String,
    pub expires_in: u64,
    /// Absent where the server keeps the renewable secret unchanged.
    pub refresh_token: Option<String>,
}

/// Whether `r` is the grant made of the given fields, or the error owed when a
/// required one is missing.
pub open spec fn exchange_outcome(
    r: Result<TokenGrant, AuthError>,
    access: Option<Seq<char>>,
    expires_in: Option<u64>,
    refresh: Option<Seq<char>>,
) -> bool {
    match (access, expires_in) {
        (Some(a), Some(e)) => r matches Ok(g) && g.access_token@ == a && g.expires_in == e && match (g.refresh_token, refresh) {
            (Some(s), Some(t)) => s@ == t,
            (None, None) => true,
            _ => false,
        },
        _ => r == Err::<TokenGrant, AuthError>(AuthError::MalformedResponse),
    }
}

/// Reads a grant from the fields of an exchange response: the access token
/// and its lifetime are required, the renewable secret is not.
pub fn interpret_exchange(access: Option<String>, expires_in: Option<u64>, refresh: Option<String>) -> (r: Result<TokenGrant, AuthError>)
    ensures
        match (access, expires_in) {
            (Some(a), Some(e)) => r matches Ok(g) && g.access_token == a && g.expires_in == e && g.refresh_token == refresh,
            _ => r == Err::<TokenGrant, AuthError>(AuthError::MalformedResponse),
        },
{
    match (access, expires_in) {
        (Some(a), Some(e)) => Ok(TokenGrant { access_token: a, expires_in: e, refresh_token: refresh }),
        _ => Err(AuthError::MalformedResponse),
    }
}

/// Reads a grant from the JSON body of an exchange response.
pub fn parse_exchange_body(body: &str) -> (r: Result<TokenGrant, AuthError>)
    ensures
        exchange_outcome(
            r,
            json_str_at(body@, "/access_token"@),
            json_u64_at(body@, "/expires_in"@),
            json_str_at(body@, "/refresh_token"@),
        ),
{
    let access = str_at(body, "/access_token");
    let expires_in = u64_at(body, "/expires_in");
    let refresh = str_at(body, "/refresh_token");
    interpret_exchange(access, expires_in, refresh)
}

/// The credentials in use: a bearer token, the secret that renews it, and the
/// second (on the caller's clock) from which the token counts as expired.
///
/// Nothing guards against two callers refreshing at once: each that sees the
/// token expired asks for a refresh of its own. One caller at a time is
/// assumed.
pub struct SpotifyClientAuth {
    pub access_token: String,
    pub refresh_token: String,
    pub expires_at: u64,
}

/// What `get_token` needs from its caller.
pub enum TokenStep {
    /// The cached token is still valid.
    Ready(String),
    /// The token has expired: send this refresh exchange, then hand the grant
    /// to `apply_refresh`.
    Refresh(ExchangeRequest),
}

/// How a track on the account is playing, as the playback service reports it.
pub struct SpotifyCurrentPlaying {
    pub artists: String,
    pub album: String,
    pub song: String,
}

/// A call to the playback service.
#[derive(Debug, Clone, Copy, PartialEq, Eq, Structural)]
pub enum PlaybackCall {
    Pause,
    Resume,
    Previous,
    Next,
}

impl PlaybackCall {
    /// The endpoint that performs the call.
    pub fn url(&self) -> (r: &'static str)
        ensures
            r@ == match self {
                PlaybackCall::Pause => "https://api.spotify.com/v1/me/player/pause"@,
                PlaybackCall::Resume => "https://api.spotify.com/v1/me/player/play"@,
                PlaybackCall::Previous => "https://api.spotify.com/v1/me/player/previous"@,
                PlaybackCall::Next => "https://api.spotify.com/v1/me/player/next"@,
            },
    {
        match self {
            PlaybackCall::Pause => "https://api.spotify.com/v1/me/player/pause",
            PlaybackCall::Resume => "https://api.spotify.com/v1/me/player/play",
            PlaybackCall::Previous => "https://api.spotify.com/v1/me/player/previous",
            PlaybackCall::Next => "https://api.spotify.com/v1/me/player/next",
        }
    }
}

/// The text of the request that opens the login page for `client_id`.
pub open spec fn login_url(client_id: Seq<char>) -> Seq<char> {
    "https://accounts.spotify.com/authorize?client_id="@ + client_id + "&response_type=code&redirect_uri="@
        + REDIRECT_URI@ + "&scope="@ + SCOPES@
}

/// Whether byte `b` separates words of a request line.
pub open spec fn is_space(b: u8) -> bool {
    b == 32 || b == 9 || b == 13 || b == 10
}

/// Whether the marker `code=` starts at index `i` of `s`.
pub open spec fn marker_at(s: Seq<u8>, i: int) -> bool {
    &&& 0 <= i
    &&& i + 5 <= s.len()
    &&& s[i] == 99u8
    &&& s[i + 1] == 111u8
    &&& s[i + 2] == 100u8
    &&& s[i + 3] == 101u8
    &&& s[i + 4] == 61u8
}

/// Whether `code` is what stands between the first `code=` of `s`, which
/// starts at `i`, and the first space at or after `i + 5`, at `j` (or the end).
pub open spec fn code_spans(s: Seq<u8>, code: Seq<u8>, i: int, j: int) -> bool {
    &&& marker_at(s, i)
    &&& forall|k: int| 0 <= k < i ==> !marker_at(s, k)
    &&& i + 5 <= j <= s.len()
    &&& forall|k: int| i + 5 <= k < j ==> !is_space(#[trigger] s[k])
    &&& (j == s.len() || is_space(s[j]))
    &&& code == s.subrange(i + 5, j)
}

/// Whether `code` is what follows the first `code=` of `s`, up to the next
/// space or the end.
pub open spec fn code_in(s: Seq<u8>, code: Seq<u8>) -> bool {
    exists|i: int, j: int| #[trigger] code_spans(s, code, i, j)
}

fn starts_marker(s: &[u8], i: usize) -> (r: bool)
    requires
        i + 5 <= s@.len(),
    ensures
        r == marker_at(s@, i as int),
{
    s[i] == 99u8 && s[i + 1] == 111u8 && s[i + 2] == 100u8 && s[i + 3] == 101u8 && s[i + 4] == 61u8
}

fn space_byte(b: u8) -> (r: bool)
    ensures
        r == is_space(b),
{
    b == 32u8 || b == 9u8 || b == 13u8 || b == 10u8
}

/// The one-time code in a redirect request: what follows the first `code=`,
/// up to the next space or the end; `None` when there is no `code=`.
pub fn extract_code(request: &[u8]) -> (r: Option<Vec<u8>>)
    ensures
        match r {
            Some(code) => code_in(request@, code@),
            None => forall|k: int| !marker_at(request@, k),
        },
{
    let n = request.len();
    let mut i: usize = 0;
    let mut found = false;
    while !found && n - i >= 5
        invariant
            n == request@.len(),
            i <= n,
            found ==> i + 5 <= n && marker_at(request@, i as int),
            forall|k: int| 0 <= k < i ==> !marker_at(request@, k),
        decreases n - i, (if found { 0int } else { 1int }),
    {
        if starts_marker(request, i) {
            found = true;
        } else {
            i += 1;
        }
    }
    if !found {
        assert forall|k: int| !marker_at(request@, k) by {
            if 0 <= k && k + 5 <= request@.len() {
                assert(k < i);
            }
        }
        return None;
    }
    let start = i + 5;
    let mut j: usize = start;
    while j < n && !space_byte(request[j])
        invariant
            n == request@.len(),
            start <= j <= n,
            forall|k: int| start <= k < j ==> !is_space(#[trigger] request@[k]),
        decreases n - j,
    {
        j += 1;
    }
    let mut code: Vec<u8> = Vec::new();
    let mut k: usize = start;
    while k < j
        invariant
            start <= k <= j <= n,
            n == request@.len(),
            code@ == request@.subrange(start as int, k as int),
        decreases j - k,
    {
        code.push(request[k]);
        k += 1;
    }
    assert(code_spans(request@, code@, i as int, j as int)) by {
        assert(code@ =~= request@.subrange(i + 5, j as int));
    }
    Some(code)
}

/// The song, album and artist of a now-playing report, with the fixed
/// placeholders for what the report leaves out; `None` when it holds no item.
pub fn current_playing_from(
    has_item: bool,
    song: Option<String>,
    album: Option<String>,
    artist: Option<String>,
) -> (r: Option<SpotifyCurrentPlaying>)
    ensures
        !has_item ==> r is None,
        has_item ==> (r matches Some(t) && t.song@ == text_or(song, "Unknown Song"@)
            && t.album@ == text_or(album, "Unknown Album"@) && t.artists@ == text_or(artist, "Unknown Artist"@)),
{
    if !has_item {
        return None;
    }
    let song = match song {
        Some(s) => s,
        None => String::from_str("Unknown Song"),
    };
    let album = match album {
        Some(s) => s,
        None => String::from_str("Unknown Album"),
    };
    let artists = match artist {
        Some(s) => s,
        None => String::from_str("Unknown Artist"),
    };
    Some(SpotifyCurrentPlaying { artists, album, song })
}

/// The text of `s`, or `fallback` where there is none.
pub open spec fn text_or(s: Option<String>, fallback: Seq<char>) -> Seq<char> {
    match s {
        Some(t) => t@,
        None => fallback,
    }
}

/// The text at a JSON pointer, or `fallback` where there is none.
pub open spec fn json_text_or(body: Seq<char>, pointer: Seq<char>, fallback: Seq<char>) -> Seq<char> {
    match json_str_at(body, pointer) {
        Some(t) => t,
        None => fallback,
    }
}

/// The status with which the playback service reports that nothing plays.
pub const NO_CONTENT: u16 = 204;

/// The first thing to do at start-up.
pub enum BootstrapStep {
    /// No usable stored secret: run the interactive login.
    Login,
    /// Renew straight from the stored secret, given second, with this exchange.
    Refresh(ExchangeRequest, String),
}

/// The text that `str::trim` leaves of `s`.
pub uninterp spec fn trim_of(s: Seq<char>) -> Seq<char>;

/// Relies on `str::trim`: the result depends on the characters alone, and
/// nothing is left of an empty text.
#[verifier::external_body]
fn trimmed(s: &str) -> (r: String)
    ensures
        r@ == trim_of(s@),
        s@.len() == 0 ==> r@.len() == 0,
{
    s.trim().to_string()
}

impl SpotifyClientAuth {
    /// Whether a token request at second `now` has to refresh first.
    pub open spec fn needs_refresh(&self, now: u64) -> bool {
        now >= self.expires_at
    }

    /// The credentials after a refresh at `now` that returned `grant`: the new
    /// token, its new deadline, and the secret the grant brought, if any, or
    /// else the one held before.
    pub open spec fn refreshed(self, grant: TokenGrant, now: u64) -> SpotifyClientAuth {
        SpotifyClientAuth {
            access_token: grant.access_token,
            refresh_token: match grant.refresh_token {
                Some(s) => s,
                None => self.refresh_token,
            },
            expires_at: (now + grant.expires_in) as u64,
        }
    }

    /// Credentials from a first exchange at second `now`. The renewable secret
    /// is the one in the grant, or else `prior_secret`; with neither the
    /// response was malformed.
    pub fn new(grant: TokenGrant, prior_secret: Option<String>, now: u64) -> (r: Result<SpotifyClientAuth, AuthError>)
        requires
            now + grant.expires_in <= u64::MAX,
        ensures
            match (grant.refresh_token, prior_secret) {
                (None, None) => r == Err::<SpotifyClientAuth, AuthError>(AuthError::MalformedResponse),
                (Some(s), _) => r matches Ok(a) && a.access_token == grant.access_token
                    && a.refresh_token == s && a.expires_at == now + grant.expires_in,
                (None, Some(s)) => r matches Ok(a) && a.access_token == grant.access_token
                    && a.refresh_token == s && a.expires_at == now + grant.expires_in,
            },
    {
        let secret = match grant.refresh_token {
            Some(s) => s,
            None => match prior_secret {
                Some(s) => s,
                None => {
                    return Err(AuthError::MalformedResponse);
                },
            },
        };
        Ok(SpotifyClientAuth { access_token: grant.access_token, refresh_token: secret, expires_at: now + grant.expires_in })
    }

    /// The bearer token to use at second `now`: the cached one while it is
    /// valid, else the refresh exchange to send for a new one.
    pub fn get_token(&self, config: &ClientConfig, now: u64) -> (r: TokenStep)
        ensures
            self.needs_refresh(now) <==> r is Refresh,
            r matches TokenStep::Ready(t) ==> t == self.access_token,
            r matches TokenStep::Refresh(q) ==> q.form() == refresh_form(*config, self.refresh_token@),
    {
        if now >= self.expires_at {
            TokenStep::Refresh(Self::refresh_new_tokens(config, &self.refresh_token))
        } else {
            TokenStep::Ready(self.access_token.clone())
        }
    }

    /// Adopts what a refresh at second `now` returned.
    pub fn apply_refresh(&mut self, grant: TokenGrant, now: u64)
        requires
            now + grant.expires_in <= u64::MAX,
        ensures
            *final(self) == old(self).refreshed(grant, now),
    {
        self.access_token = grant.access_token;
        self.expires_at = now + grant.expires_in;
        match grant.refresh_token {
            Some(s) => {
                self.refresh_token = s;
            },
            None => {},
        }
    }

    /// The refresh exchange that presents `refresh_token`.
    pub fn refresh_new_tokens(config: &ClientConfig, refresh_token: &str) -> (r: ExchangeRequest)
        ensures
            r.form() == refresh_form(*config, refresh_token@),
    {
        let params = vec![
            field("grant_type", "refresh_token"),
            field("refresh_token", refresh_token),
            field("client_id", config.client_id.as_str()),
            field("client_secret", config.client_secret.as_str()),
        ];
        let r = ExchangeRequest { params };
        assert(r.form() =~= refresh_form(*config, refresh_token@));
        r
    }

    /// The exchange that trades the one-time `code` for first credentials.
    pub fn code_exchange(config: &ClientConfig, code: &str) -> (r: ExchangeRequest)
        ensures
            r.form() == code_form(*config, code@),
    {
        let params = vec![
            field("grant_type", "authorization_code"),
            field("code", code),
            field("redirect_uri", REDIRECT_URI),
            field("client_id", config.client_id.as_str()),
            field("client_secret", config.client_secret.as_str()),
            field("scope", SCOPES),
        ];
        let r = ExchangeRequest { params };
        assert(r.form() =~= code_form(*config, code@));
        r
    }

    /// The start-up step for an already trimmed stored secret: renew from it
    /// when it is present and not empty, else log in.
    pub fn plan_from_secret(config: &ClientConfig, secret: Option<&str>) -> (r: BootstrapStep)
        ensures
            match secret {
                Some(s) if s@.len() > 0 => r matches BootstrapStep::Refresh(q, t) && t@ == s@
                    && q.form() == refresh_form(*config, s@),
                _ => r is Login,
            },
    {
        match secret {
            Some(s) => {
                if s.is_empty() {
                    BootstrapStep::Login
                } else {
                    BootstrapStep::Refresh(Self::refresh_new_tokens(config, s), String::from_str(s))
                }
            },
            None => BootstrapStep::Login,
        }
    }

    /// The start-up step for the stored secret file's content, if the file
    /// exists: its trimmed text decides as in `plan_from_secret`.
    pub fn bootstrap(config: &ClientConfig, stored: Option<&str>) -> (r: BootstrapStep)
        ensures
            match stored {
                Some(s) if trim_of(s@).len() > 0 => r matches BootstrapStep::Refresh(q, t)
                    && t@ == trim_of(s@) && q.form() == refresh_form(*config, trim_of(s@)),
                _ => r is Login,
            },
    {
        match stored {
            Some(s) => {
                let t = trimmed(s);
                Self::plan_from_secret(config, Some(t.as_str()))
            },
            None => BootstrapStep::Login,
        }
    }

    /// The login page's address for this configuration.
    pub fn authorization_url(config: &ClientConfig) -> (r: String)
        ensures
            r@ == login_url(config.client_id@),
    {
        let mut url = String::from_str("https://accounts.spotify.com/authorize?client_id=");
        url.append(config.client_id.as_str());
        url.append("&response_type=code&redirect_uri=");
        url.append(REDIRECT_URI);
        url.append("&scope=");
        url.append(SCOPES);
        url
    }

    /// What is playing, read from the playback service's answer: nothing on
    /// `NO_CONTENT` or when the body holds no item, else the item's song,
    /// album and first artist, with placeholders for the missing ones.
    pub fn get_current_playing(status: u16, body: &str) -> (r: Option<SpotifyCurrentPlaying>)
        ensures
            (status == NO_CONTENT || !json_has(body@, "/item"@)) ==> r is None,
            (status != NO_CONTENT && json_has(body@, "/item"@)) ==> (r matches Some(t)
                && t.song@ == json_text_or(body@, "/item/name"@, "Unknown Song"@)
                && t.album@ == json_text_or(body@, "/item/album/name"@, "Unknown Album"@)
                && t.artists@ == json_text_or(body@, "/item/artists/0/name"@, "Unknown Artist"@)),
    {
        if status == NO_CONTENT {
            return None;
        }
        let has_item = has_at(body, "/item");
        let song = str_at(body, "/item/name");
        let album = str_at(body, "/item/album/name");
        let artist = str_at(body, "/item/artists/0/name");
        current_playing_from(has_item, song, album, artist)
    }

    /// A refresh happens exactly when the token has expired, and one whose
    /// grant has a positive lifetime moves the deadline strictly later, past
    /// the moment of the refresh.
    pub proof fn lemma_refresh_moves_deadline(self, grant: TokenGrant, now: u64)
        requires
            self.needs_refresh(now),
            grant.expires_in > 0,
            now + grant.expires_in <= u64::MAX,
        ensures
            self.refreshed(grant, now).expires_at > self.expires_at,
            !self.refreshed(grant, now).needs_refresh(now),
    {
    }

    /// A refresh keeps the renewable secret when the grant brings none, and
    /// takes the grant's otherwise.
    pub proof fn lemma_refresh_keeps_secret(self, grant: TokenGrant, now: u64)
        ensures
            grant.refresh_token is None ==> self.refreshed(grant, now).refresh_token == self.refresh_token,
            grant.refresh_token matches Some(s) ==> self.refreshed(grant, now).refresh_token == s,
            self.refreshed(grant, now).access_token == grant.access_token,
    {
    }

    /// The call that toggles playback: pause while playing, resume otherwise.
    pub fn playback_toggle(is_playing: bool) -> (r: PlaybackCall)
        ensures
            r == (if is_playing { PlaybackCall::Pause } else { PlaybackCall::Resume }),
    {
        if is_playing {
            PlaybackCall::Pause
        } else {
            PlaybackCall::Resume
        }
    }

    /// The call that toggles playback, read from the playback service's state
    /// report; `None` when the report does not say whether anything plays.
    pub fn pause(state_body: &str) -> (r: Option<PlaybackCall>)
        ensures
            match json_bool_at(state_body@, "/is_playing"@) {
                Some(p) => r == Some(if p { PlaybackCall::Pause } else { PlaybackCall::Resume }),
                None => r is None,
            },
    {
        match bool_at(state_body, "/is_playing") {
            Some(p) => Some(Self::playback_toggle(p)),
            None => None,
        }
    }

    /// The call that goes back one track.
    pub fn skip_back() -> (r: PlaybackCall)
        ensures
            r == PlaybackCall::Previous,
    {
        PlaybackCall::Previous
    }

    /// The call that goes forward one track.
    pub fn skip_forward() -> (r: PlaybackCall)
        ensures
            r == PlaybackCall::Next,
    {
        PlaybackCall::Next
    }
}

} // verus!
