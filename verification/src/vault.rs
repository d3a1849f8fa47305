use vstd::prelude::*;

use crate::aws::VaultAwsAuthIamPayload;
use crate::error::Error;
use crate::http::{find_pair, lookup, pairs_view, HttpRequest, Method, RequestBody};

verus! {

/// Type of token from Vault
#[derive(Clone, Copy, Debug, PartialEq, Eq, Structural)]
pub enum TokenType {
    /// Long lived service tokens
    Service,
    /// Short lived batch tokens
    Batch,
}

/// Authentication data from Vault
#[derive(Clone, Debug, PartialEq, Eq)]
pub struct Authentication {
    /// The actual token
    pub client_token: String,
    /// The accessor for the Token
    pub accessor: String,
    /// List of policies for token, including from Identity
    pub policies: Vec<String>,
    /// List of tokens directly assigned to token
    pub token_policies: Vec<String>,
    /// Arbitrary metadata, one pair per key
    pub metadata: Vec<(String, String)>,
    /// Lease Duration for the token
    pub lease_duration: u64,
    /// Whether the token is renewable
    pub renewable: bool,
    /// UUID for the entity
    pub entity_id: String,
    /// Type of token
    pub token_type: TokenType,
}

/// Generic Vault Response
#[derive(Clone, Debug, PartialEq, Eq)]
pub enum Response {
    /// An error response
    Error {
        /// List of errors returned from Vault
        errors: Vec<String>,
    },
    /// A successful response
    Response {
        /// Request UUID
        request_id: String,
        /// Lease ID for secrets
        lease_id: String,
        /// Renewable for secrets
        renewable: bool,
        /// Lease duration for secrets
        lease_duration: u64,
        /// Warnings, if any
        warnings: Option<Vec<String>>,
        /// Auth data for authentication requests
        auth: Option<Authentication>,
        /// Data for secrets requests, one pair per key
        data: Option<Vec<(String, String)>>,
    },
}

/// Payload to send to Vault for logging in via AWS IAM
#[derive(Clone, Debug, PartialEq, Eq)]
pub struct AwsIamLoginPayload {
    pub role: String,
    /// Sent flattened into the same JSON object as `role`
    pub aws_payload: VaultAwsAuthIamPayload,
}

/// Header that carries the Vault token
pub const VAULT_TOKEN_HEADER: &'static str = "X-Vault-Token";

/// The text of the URL that `url::Url::join(input)` yields on the URL that
/// `url::Url::parse(base)` yields, or `None` when either fails.
pub uninterp spec fn url_join(base: Seq<char>, input: Seq<char>) -> Option<Seq<char>>;

/// Resolves `input` against the URL `base`: `url::Url::parse(base)`, then `Url::join(input)`
/// on the result, and the text of the joined URL. The outcome is a function of the two
/// texts alone (named `url_join`); what that function is, the URL standard that the
/// `url` crate implements says, and nothing more of it is stated here.
#[verifier::external_body]
fn join_url(base: &str, input: &str) -> (res: Result<String, url::ParseError>)
    ensures
        match url_join(base@, input@) {
            Some(u) => res matches Ok(s) && s@ == u,
            None => res is Err,
        },
{
    url::Url::parse(base).and_then(|b| b.join(input)).map(String::from)
}

/// The path of the Vault AWS login endpoint for the auth engine at `path`.
pub open spec fn login_path(path: Seq<char>) -> Seq<char> {
    "/v1/auth/"@ + path + "/login"@
}

/// The path of the Nomad secrets engine endpoint for `role` of the engine at `path`.
pub open spec fn nomad_creds_path(path: Seq<char>, role: Seq<char>) -> Seq<char> {
    "/v1/"@ + path + "/creds/"@ + role
}

/// The login path names the auth engine's path: it reads `/v1/auth/`, the path, then
/// `/login`, so two paths give the same login path only when they are the same.
pub proof fn lemma_login_path_names_the_engine(path: Seq<char>, other: Seq<char>)
    ensures
        login_path(path).len() == (path.len() as int) + 15,
        login_path(path).subrange(0, 9) == "/v1/auth/"@,
        login_path(path).subrange(9, 9 + (path.len() as int)) == path,
        login_path(path).subrange(9 + (path.len() as int), 15 + (path.len() as int)) == "/login"@,
        login_path(path) == login_path(other) ==> path == other,
{
    reveal_strlit("/v1/auth/");
    reveal_strlit("/login");
    let l = login_path(path);
    assert(l.subrange(0, 9) =~= "/v1/auth/"@);
    assert(l.subrange(9, 9 + (path.len() as int)) =~= path);
    assert(l.subrange(9 + (path.len() as int), 15 + (path.len() as int)) =~= "/login"@);
    if l == login_path(other) {
        assert(login_path(other).subrange(9, 9 + (other.len() as int)) =~= other);
    }
}

/// The secrets-engine path names the engine's path and the role: it reads `/v1/`, the
/// path, `/creds/`, then the role; for one role two paths give the same text only when
/// they are the same, and for one path two roles do.
pub proof fn lemma_creds_path_names_engine_and_role(path: Seq<char>, role: Seq<char>, other: Seq<char>)
    ensures
        nomad_creds_path(path, role).len() == (path.len() as int) + (role.len() as int) + 11,
        nomad_creds_path(path, role).subrange(0, 4) == "/v1/"@,
        nomad_creds_path(path, role).subrange(4, 4 + (path.len() as int)) == path,
        nomad_creds_path(path, role).subrange(4 + (path.len() as int), 11 + (path.len() as int)) == "/creds/"@,
        nomad_creds_path(path, role).subrange(11 + (path.len() as int), 11 + (path.len() as int) + (role.len() as int)) == role,
        nomad_creds_path(path, role) == nomad_creds_path(other, role) ==> path == other,
        nomad_creds_path(path, role) == nomad_creds_path(path, other) ==> role == other,
{
    reveal_strlit("/v1/");
    reveal_strlit("/creds/");
    let t = nomad_creds_path(path, role);
    assert(t.subrange(0, 4) =~= "/v1/"@);
    assert(t.subrange(4, 4 + (path.len() as int)) =~= path);
    assert(t.subrange(4 + (path.len() as int), 11 + (path.len() as int)) =~= "/creds/"@);
    assert(t.subrange(11 + (path.len() as int), 11 + (path.len() as int) + (role.len() as int)) =~= role);
    if t == nomad_creds_path(other, role) {
        assert(nomad_creds_path(other, role).subrange(4, 4 + (other.len() as int)) =~= other);
    }
    if t == nomad_creds_path(path, other) {
        assert(nomad_creds_path(path, other).subrange(11 + (path.len() as int), 11 + (path.len() as int) + (other.len() as int)) =~= other);
    }
}

/// `parts` joined with `sep` between each two of them.
pub open spec fn join_with(parts: Seq<Seq<char>>, sep: Seq<char>) -> Seq<char>
    decreases parts.len(),
{
    if parts.len() == 0 {
        seq![]
    } else if parts.len() == 1 {
        parts[0]
    } else {
        join_with(parts.drop_last(), sep) + sep + parts.last()
    }
}

/// The texts of a list of strings.
pub open spec fn strings_view(v: Seq<String>) -> Seq<Seq<char>> {
    v.map_values(|s: String| s@)
}

/// The strings of `list` joined with `sep`, as `[String]::join` writes them.
pub fn join_strings(list: &Vec<String>, sep: &str) -> (r: String)
    ensures
        r@ == join_with(strings_view(list@), sep@),
{
    let mut r = String::new();
    let ghost parts = strings_view(list@);
    let mut i: usize = 0;
    assert(parts.take(0) =~= Seq::<Seq<char>>::empty());
    while i < list.len()
        invariant
            i <= list.len(),
            parts == strings_view(list@),
            r@ == join_with(parts.take(i as int), sep@),
        decreases list.len() - i,
    {
        assert(parts.take(i + 1).drop_last() =~= parts.take(i as int));
        if i != 0 {
            r.append(sep);
        } else {
            assert(r@ =~= Seq::<char>::empty());
        }
        r.append(list[i].as_str());
        i = i + 1;
    }
    assert(parts.take(list.len() as int) =~= parts);
    r
}

/// The Vault errors of an error response, joined with "; ".
pub open spec fn vault_errors_message(errors: Seq<String>) -> Seq<char> {
    join_with(strings_view(errors), "; "@)
}

/// The token that a Vault login response gives: the client token of its authentication
/// data; the errors of an error response joined with "; "; "Missing authentication data"
/// when a successful response has no authentication data.
pub fn token_from_login_response(response: Response) -> (res: Result<String, Error>)
    ensures
        match response {
            Response::Error { errors } => res matches Err(Error::InvalidVaultResponse(m))
                && m@ == vault_errors_message(errors@),
            Response::Response { auth: Some(a), .. } => res matches Ok(t) && t@ == a.client_token@,
            Response::Response { auth: None, .. } => res matches Err(Error::InvalidVaultResponse(m))
                && m@ == "Missing authentication data"@,
        },
{
    match response {
        Response::Error { errors } => Err(Error::InvalidVaultResponse(join_strings(&errors, "; "))),
        Response::Response { auth: Some(auth), .. } => Ok(auth.client_token),
        Response::Response { auth: None, .. } => Err(Error::InvalidVaultResponse(String::from_str("Missing authentication data"))),
    }
}

/// The Nomad token that a response of the Nomad secrets engine gives: the `secret_id` of
/// its data; the errors of an error response joined with "; "; "Missing Nomad token from
/// response" when the data has no `secret_id`; "Missing secrets data" when a successful
/// response has no data.
pub fn nomad_token_from_response(response: Response) -> (res: Result<String, Error>)
    ensures
        match response {
            Response::Error { errors } => res matches Err(Error::InvalidVaultResponse(m))
                && m@ == vault_errors_message(errors@),
            Response::Response { data: Some(d), .. } => match lookup(pairs_view(d@), "secret_id"@) {
                Some(v) => res matches Ok(t) && t@ == v,
                None => res matches Err(Error::InvalidVaultResponse(m))
                    && m@ == "Missing Nomad token from response"@,
            },
            Response::Response { data: None, .. } => res matches Err(Error::InvalidVaultResponse(m))
                && m@ == "Missing secrets data"@,
        },
{
    match response {
        Response::Error { errors } => Err(Error::InvalidVaultResponse(join_strings(&errors, "; "))),
        Response::Response { data: Some(data), .. } => match find_pair(&data, "secret_id") {
            Some(v) => Ok(v.clone()),
            None => Err(Error::InvalidVaultResponse(String::from_str("Missing Nomad token from response"))),
        },
        Response::Response { data: None, .. } => Err(Error::InvalidVaultResponse(String::from_str("Missing secrets data"))),
    }
}

/// Build the request that logs in to Vault with the AWS IAM method: a POST to
/// `/v1/auth/{path}/login` resolved against the Vault address, with the role and the
/// AWS payload as its body.
pub fn build_login_aws_iam_request(
    vault_address: &str,
    aws_auth_path: &str,
    aws_auth_role: &str,
    aws_payload: &VaultAwsAuthIamPayload,
) -> (res: Result<HttpRequest, Error>)
    ensures
        match url_join(vault_address@, login_path(aws_auth_path@)) {
            Some(u) => res matches Ok(r)
                && r@.method == Method::Post
                && r@.url == u
                && r@.query == Seq::<(Seq<char>, Seq<char>)>::empty()
                && r@.headers == Seq::<(Seq<char>, Seq<char>)>::empty()
                && (match r.body {
                    RequestBody::AwsIamLogin(p) => p.role@ == aws_auth_role@ && p.aws_payload@ == aws_payload@,
                    _ => false,
                }),
            None => res matches Err(e) && e is UrlParseError,
        },
{
    let mut path = String::from_str("/v1/auth/");
    path.append(aws_auth_path);
    path.append("/login");
    let url = match join_url(vault_address, path.as_str()) {
        Ok(u) => u,
        Err(e) => return Err(Error::UrlParseError(e)),
    };
    let payload = AwsIamLoginPayload { role: aws_auth_role.to_owned(), aws_payload: aws_payload.duplicate() };
    let r = HttpRequest { method: Method::Post, url, query: Vec::new(), headers: Vec::new(), body: RequestBody::AwsIamLogin(payload) };
    assert(r@.query =~= Seq::<(Seq<char>, Seq<char>)>::empty());
    assert(r@.headers =~= Seq::<(Seq<char>, Seq<char>)>::empty());
    Ok(r)
}

/// Build the request for a token of the Nomad secrets engine: a GET of
/// `/v1/{path}/creds/{role}` resolved against the Vault address, with the Vault token in
/// the `X-Vault-Token` header.
pub fn build_nomad_token_request(
    vault_address: &str,
    nomad_path: &str,
    nomad_role: &str,
    vault_token: &str,
) -> (res: Result<HttpRequest, Error>)
    ensures
        match url_join(vault_address@, nomad_creds_path(nomad_path@, nomad_role@)) {
            Some(u) => res matches Ok(r)
                && r@.method == Method::Get
                && r@.url == u
                && r@.query == Seq::<(Seq<char>, Seq<char>)>::empty()
                && r@.headers == seq![(VAULT_TOKEN_HEADER@, vault_token@)]
                && r.body == RequestBody::Empty,
            None => res matches Err(e) && e is UrlParseError,
        },
{
    let mut path = String::from_str("/v1/");
    path.append(nomad_path);
    path.append("/creds/");
    path.append(nomad_role);
    let url = match join_url(vault_address, path.as_str()) {
        Ok(u) => u,
        Err(e) => return Err(Error::UrlParseError(e)),
    };
    let mut headers: Vec<(String, String)> = Vec::new();
    headers.push((String::from_str(VAULT_TOKEN_HEADER), vault_token.to_owned()));
    let r = HttpRequest { method: Method::Get, url, query: Vec::new(), headers, body: RequestBody::Empty };
    assert(r@.query =~= Seq::<(Seq<char>, Seq<char>)>::empty());
    assert(r@.headers =~= seq![(VAULT_TOKEN_HEADER@, vault_token@)]);
    Ok(r)
}

/// A Vault client: the address of the Vault server and the token to use with it
pub struct Client {
    address: String,
    token: String,
}

/// What a Vault `Client` holds
pub struct VaultClientView {
    pub address: Seq<char>,
    pub token: Seq<char>,
}

impl View for Client {
    type V = VaultClientView;

    closed spec fn view(&self) -> VaultClientView {
        VaultClientView { address: self.address@, token: self.token@ }
    }
}

impl Client {
    /// A client for the Vault server at `address` that uses `token`
    pub fn new(address: &str, token: &str) -> (c: Client)
        ensures
            c@.address == address@,
            c@.token == token@,
    {
        Client { address: address.to_owned(), token: token.to_owned() }
    }

    /// Returns the address of the Vault server
    pub fn address(&self) -> (r: &str)
        ensures
            r@ == self@.address,
    {
        self.address.as_str()
    }

    /// Returns the Vault token
    pub fn token(&self) -> (r: &str)
        ensures
            r@ == self@.token,
    {
        self.token.as_str()
    }

    /// The request for a token of the Nomad secrets engine, made with this client's token.
    pub fn nomad_token_request(&self, nomad_path: &str, nomad_role: &str) -> (res: Result<HttpRequest, Error>)
        ensures
            match url_join(self@.address, nomad_creds_path(nomad_path@, nomad_role@)) {
                Some(u) => res matches Ok(r)
                    && r@.method == Method::Get
                    && r@.url == u
                    && r@.query == Seq::<(Seq<char>, Seq<char>)>::empty()
                    && r@.headers == seq![(VAULT_TOKEN_HEADER@, self@.token)]
                    && r.body == RequestBody::Empty,
                None => res matches Err(e) && e is UrlParseError,
            },
    {
        build_nomad_token_request(self.address.as_str(), nomad_path, nomad_role, self.token.as_str())
    }
}

} // verus!
