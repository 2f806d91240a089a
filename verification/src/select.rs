//! Choosing the client and the server by name.

use vstd::prelude::*;
use vstd::string::StrSliceExecFns;

verus! {

/// Whether two texts are equal.
pub fn str_is(a: &str, b: &str) -> (r: bool)
    ensures
        r == (a@ == b@),
{
    let n = a.unicode_len();
    let m = b.unicode_len();
    if n != m {
        proof {
            assert(a@.len() != b@.len());
        }
        return false;
    }
    let mut i: usize = 0;
    while i < n
        invariant
            n == a@.len(),
            n == b@.len(),
            i <= n,
            forall|k: int| 0 <= k < i ==> a@[k] == b@[k],
        decreases n - i,
    {
        if a.get_char(i) != b.get_char(i) {
            return false;
        }
        i += 1;
    }
    proof {
        assert(a@ =~= b@);
    }
    true
}

/// The speed-test clients.
#[derive(PartialEq, Eq, Structural, Clone, Copy, Debug)]
pub enum ClientKind {
    /// The HTTP client, tested against the download and the upload URL.
    Http,
    /// The TCP speed-test client, tested against the upload URL.
    Tcp,
}

/// The client named `name`: `http` or `tcp`.
pub fn client_kind(name: &str) -> (r: Option<ClientKind>)
    ensures
        r == if name@ == "http"@ {
            Some(ClientKind::Http)
        } else if name@ == "tcp"@ {
            Some(ClientKind::Tcp)
        } else {
            None
        },
{
    if str_is(name, "http") {
        Some(ClientKind::Http)
    } else if str_is(name, "tcp") {
        Some(ClientKind::Tcp)
    } else {
        None
    }
}

/// What `str::to_lowercase` makes of a text.
pub uninterp spec fn lowercase(s: Seq<char>) -> Seq<char>;

/// An ASCII text with its letters `A`-`Z` lower-cased.
pub open spec fn ascii_lower(s: Seq<char>) -> Seq<char> {
    s.map_values(|c: char| if 'A' <= c && c <= 'Z' { ((c as u32) + 32) as char } else { c })
}

/// Calls `str::to_lowercase`. Claimed: the result is named by `lowercase`,
/// and an ASCII text comes out with its letters `A`-`Z` lower-cased and all
/// else kept (the lower case of an ASCII letter is its ASCII lower case; no
/// other ASCII character has a lower case). Other input is not described.
#[verifier::external_body]
fn to_lowercase(s: &str) -> (r: String)
    ensures
        r@ == lowercase(s@),
        vstd::utf8::is_ascii_chars(s@) ==> r@ == ascii_lower(s@),
{
    s.to_lowercase()
}

/// The speed-test servers.
#[derive(PartialEq, Eq, Structural, Clone, Copy, Debug)]
pub enum ServerKind {
    /// The HTTP server.
    Http,
}

impl ServerKind {
    /// The server named by an already lower-cased name.
    pub fn from_lowercase(lower: &str) -> (r: Option<ServerKind>)
        ensures
            r == if lower@ == "http"@ { Some(ServerKind::Http) } else { None },
    {
        if str_is(lower, "http") {
            Some(ServerKind::Http)
        } else {
            None
        }
    }

    /// The server named `name`, in any letter case.
    pub fn from_name(name: &str) -> (r: Option<ServerKind>)
        ensures
            r == if lowercase(name@) == "http"@ { Some(ServerKind::Http) } else { None },
            vstd::utf8::is_ascii_chars(name@) ==> r == if ascii_lower(name@) == "http"@ {
                Some(ServerKind::Http)
            } else {
                None
            },
    {
        let lower = to_lowercase(name);
        Self::from_lowercase(lower.as_str())
    }
}

/// What the client program does with its command line.
#[derive(PartialEq, Eq, Structural, Clone, Copy, Debug)]
pub enum ClientStep {
    /// Print the usage text and exit successfully.
    ShowHelp,
    /// Fail: the download and upload URLs are required.
    MissingUrls,
    /// Print the justified name of the download URL and exit.
    PrintName,
    /// Fail: `-4` and `-6` exclude each other.
    ConflictingIpFlags,
    /// Run the speed test.
    RunTest,
}

/// The client program's decision, from whether help was asked for, the
/// number of free arguments, whether the name was asked for, and the IP
/// version flags; checked in that order.
pub open spec fn client_step_of(
    help: bool,
    free_args: usize,
    print_name: bool,
    force_ipv4: bool,
    force_ipv6: bool,
) -> ClientStep {
    if help {
        ClientStep::ShowHelp
    } else if free_args < 2 {
        ClientStep::MissingUrls
    } else if print_name {
        ClientStep::PrintName
    } else if force_ipv4 && force_ipv6 {
        ClientStep::ConflictingIpFlags
    } else {
        ClientStep::RunTest
    }
}

/// The client program's decision (see `client_step_of`).
pub fn client_step(
    help: bool,
    free_args: usize,
    print_name: bool,
    force_ipv4: bool,
    force_ipv6: bool,
) -> (s: ClientStep)
    ensures
        s == client_step_of(help, free_args, print_name, force_ipv4, force_ipv6),
{
    if help {
        ClientStep::ShowHelp
    } else if free_args < 2 {
        ClientStep::MissingUrls
    } else if print_name {
        ClientStep::PrintName
    } else if force_ipv4 && force_ipv6 {
        ClientStep::ConflictingIpFlags
    } else {
        ClientStep::RunTest
    }
}

/// What the server program does with its command line.
#[derive(PartialEq, Eq, Structural, Clone, Copy, Debug)]
pub enum ServerStep {
    /// Print the usage text and exit.
    ShowHelp,
    /// Print the usage text and exit: the address to listen on is missing.
    MissingAddress,
    /// Serve.
    Serve,
}

/// The server program's decision.
pub fn server_step(help: bool, free_args: usize) -> (s: ServerStep)
    ensures
        s == if help {
            ServerStep::ShowHelp
        } else if free_args == 0 {
            ServerStep::MissingAddress
        } else {
            ServerStep::Serve
        },
{
    if help {
        ServerStep::ShowHelp
    } else if free_args == 0 {
        ServerStep::MissingAddress
    } else {
        ServerStep::Serve
    }
}

/// Help comes first, then the two URLs, then the name; only `-4` together
/// with `-6` is refused, and any other choice of IP version runs the test.
pub proof fn law_client_step(help: bool, free_args: usize, print_name: bool, force_ipv4: bool, force_ipv6: bool)
    ensures
        client_step_of(help, free_args, print_name, force_ipv4, force_ipv6) == ClientStep::RunTest
            ==> !(force_ipv4 && force_ipv6) && free_args >= 2 && !help,
        help ==> client_step_of(help, free_args, print_name, force_ipv4, force_ipv6)
            == ClientStep::ShowHelp,
        !help && free_args < 2 ==> client_step_of(help, free_args, print_name, force_ipv4, force_ipv6)
            == ClientStep::MissingUrls,
        !help && free_args >= 2 && print_name ==> client_step_of(
            help,
            free_args,
            print_name,
            force_ipv4,
            force_ipv6,
        ) == ClientStep::PrintName,
        client_step_of(help, free_args, print_name, force_ipv4, force_ipv6)
            == ClientStep::ConflictingIpFlags <==> (!help && free_args >= 2 && !print_name && force_ipv4
            && force_ipv6),
        !help && free_args >= 2 && !print_name && !(force_ipv4 && force_ipv6) ==> client_step_of(
            help,
            free_args,
            print_name,
            force_ipv4,
            force_ipv6,
        ) == ClientStep::RunTest,
{
}

/// `HTTP`, `Http` and `http` all name the HTTP server.
pub proof fn law_server_name_any_case()
    ensures
        ascii_lower("HTTP"@) == "http"@,
        ascii_lower("Http"@) == "http"@,
        ascii_lower("http"@) == "http"@,
        vstd::utf8::is_ascii_chars("HTTP"@),
{
    reveal_strlit("HTTP");
    reveal_strlit("Http");
    reveal_strlit("http");
    assert(ascii_lower("HTTP"@) =~= "http"@);
    assert(ascii_lower("Http"@) =~= "http"@);
    assert(ascii_lower("http"@) =~= "http"@);
}

} // verus!
