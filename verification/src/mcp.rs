//! Options of the agent server: its command line, how it signs in, and whom it lets in.

use vstd::prelude::*;
use vstd::string::*;

use crate::text::{
    is_white, list_items, listed_items, same_text, text_option, texts, trim,
    trimming_removes_what_is_around, trimmed,
};

verus! {

/// How the server is used.
pub fn usage() -> (r: &'static str)
    ensures
        r@ == "usage: restream-mcp [--print-tools] [--stdio] [--bind <addr>]"@,
{
    "usage: restream-mcp [--print-tools] [--stdio] [--bind <addr>]"
}

/// What the command line asks for.
pub struct McpOptions {
    /// List the tools and end.
    pub print_tools: bool,
    /// Speak over standard input and output instead of HTTP.
    pub stdio: bool,
    /// Where to listen.
    pub bind_addr: String,
}

/// What a command line says.
pub struct McpOptionsModel {
    pub print_tools: bool,
    pub stdio: bool,
    pub bind_addr: Seq<char>,
}

impl View for McpOptions {
    type V = McpOptionsModel;

    open spec fn view(&self) -> McpOptionsModel {
        McpOptionsModel {
            print_tools: self.print_tools,
            stdio: self.stdio,
            bind_addr: self.bind_addr@,
        }
    }
}

/// The options once the arguments have been read; `None` where they cannot be.
pub open spec fn options_after(o: McpOptionsModel, args: Seq<Seq<char>>) -> Option<McpOptionsModel>
    decreases args.len(),
{
    if args.len() == 0 {
        Some(o)
    } else if args[0] == "--print-tools"@ {
        options_after(McpOptionsModel { print_tools: true, ..o }, args.skip(1))
    } else if args[0] == "--stdio"@ {
        options_after(McpOptionsModel { stdio: true, ..o }, args.skip(1))
    } else if args[0] == "--bind"@ && args.len() >= 2 {
        options_after(McpOptionsModel { bind_addr: args[1], ..o }, args.skip(2))
    } else {
        None
    }
}

/// The options of a command line.
pub open spec fn options_of(args: Seq<Seq<char>>) -> Option<McpOptionsModel> {
    options_after(
        McpOptionsModel { print_tools: false, stdio: false, bind_addr: "127.0.0.1:4040"@ },
        args,
    )
}

/// Reads a command line; `None` where the usage is to be shown.
pub fn parse_options(args: &Vec<String>) -> (r: Option<McpOptions>)
    ensures
        match r {
            Some(o) => options_of(texts(args@)) == Some(o@),
            None => options_of(texts(args@)) is None,
        },
{
    let mut o: McpOptions = McpOptions {
        print_tools: false,
        stdio: false,
        bind_addr: "127.0.0.1:4040".to_string(),
    };
    let ghost all = texts(args@);
    let mut i: usize = 0;
    assert(all.skip(0) =~= all);
    while i < args.len()
        invariant
            i <= args@.len(),
            all == texts(args@),
            options_after(o@, all.skip(i as int)) == options_of(all),
        decreases args@.len() - i,
    {
        let ghost rest = all.skip(i as int);
        assert(rest[0] == args@[i as int]@);
        assert(rest.skip(1) =~= all.skip(i + 1));
        let arg: &str = args[i].as_str();
        if same_text(arg, "--print-tools") {
            o.print_tools = true;
            i += 1;
        } else if same_text(arg, "--stdio") {
            o.stdio = true;
            i += 1;
        } else if same_text(arg, "--bind") {
            if i + 1 >= args.len() {
                return None;
            }
            assert(rest[1] == args@[i + 1]@);
            assert(rest.skip(2) =~= all.skip(i + 2));
            o.bind_addr = args[i + 1].clone();
            i += 2;
        } else {
            return None;
        }
    }
    assert(all.skip(i as int).len() == 0);
    Some(o)
}

/// How the server signs in to the application.
pub enum HttpAgentAuth {
    /// Not at all.
    Anonymous,
    SessionCookie(String),
    BearerToken(String),
}

/// How the server signs in, by kind and credential.
pub enum AuthModel {
    Anonymous,
    SessionCookie(Seq<char>),
    BearerToken(Seq<char>),
}

impl View for HttpAgentAuth {
    type V = AuthModel;

    open spec fn view(&self) -> AuthModel {
        match self {
            HttpAgentAuth::Anonymous => AuthModel::Anonymous,
            HttpAgentAuth::SessionCookie(c) => AuthModel::SessionCookie(c@),
            HttpAgentAuth::BearerToken(b) => AuthModel::BearerToken(b@),
        }
    }
}

/// How the server signs in with what the environment sets.
pub open spec fn auth_of(cookie: Option<Seq<char>>, token: Option<Seq<char>>) -> AuthModel {
    match (cookie, token) {
        (Some(c), _) => if trimmed(c).len() == 0 {
            AuthModel::Anonymous
        } else {
            AuthModel::SessionCookie(trimmed(c))
        },
        (None, Some(t)) => if trimmed(t).len() == 0 {
            AuthModel::Anonymous
        } else {
            AuthModel::BearerToken(trimmed(t))
        },
        (None, None) => AuthModel::Anonymous,
    }
}

/// How the server signs in: by the cookie where that is set, else by the token; a text of nothing
/// but white space is no credential.
pub fn select_auth(cookie: &Option<String>, token: &Option<String>) -> (r: HttpAgentAuth)
    ensures
        r@ == auth_of(text_option(*cookie), text_option(*token)),
        match r {
            HttpAgentAuth::SessionCookie(c) => text_option(*cookie) matches Some(t) && c@ == trimmed(
                t,
            ) && c@.len() > 0,
            HttpAgentAuth::BearerToken(b) => *cookie is None && (text_option(*token) matches Some(t)
                && b@ == trimmed(t) && b@.len() > 0),
            HttpAgentAuth::Anonymous => match text_option(*cookie) {
                Some(t) => trimmed(t).len() == 0,
                None => match text_option(*token) {
                    Some(t) => trimmed(t).len() == 0,
                    None => true,
                },
            },
        },
{
    if let Some(c) = cookie {
        let c: String = trim(c.as_str());
        if c.as_str().is_empty() {
            HttpAgentAuth::Anonymous
        } else {
            HttpAgentAuth::SessionCookie(c)
        }
    } else if let Some(t) = token {
        let t: String = trim(t.as_str());
        if t.as_str().is_empty() {
            HttpAgentAuth::Anonymous
        } else {
            HttpAgentAuth::BearerToken(t)
        }
    } else {
        HttpAgentAuth::Anonymous
    }
}

/// The origins that may call the server.
pub fn allowed_origins(value: &Option<String>) -> (r: Vec<String>)
    ensures
        texts(r@) == match text_option(*value) {
            Some(list) => listed_items(list),
            None => Seq::empty(),
        },
{
    match value {
        Some(list) => list_items(list.as_str()),
        None => {
            let r: Vec<String> = Vec::new();
            assert(texts(r@) =~= Seq::<Seq<char>>::empty());
            r
        },
    }
}

/// The address of the application, by default on this machine.
pub fn base_url(value: &Option<String>) -> (r: String)
    ensures
        r@ == match text_option(*value) {
            Some(url) => url,
            None => "http://127.0.0.1:3030"@,
        },
{
    match value {
        Some(url) => url.clone(),
        None => "http://127.0.0.1:3030".to_string(),
    }
}

// ── Laws ─────────────────────────────────────────────────────────────────────

/// Without arguments the server speaks over HTTP, on this machine alone.
pub proof fn agent_listens_on_this_machine()
    ensures
        options_of(Seq::empty()) == Some(
            McpOptionsModel { print_tools: false, stdio: false, bind_addr: "127.0.0.1:4040"@ },
        ),
{
}

/// Each option sets what it names and leaves the rest of the command line to be read; an option that
/// is not known, and an address that is missing, are refused.
pub proof fn agent_options_set_what_they_name(
    o: McpOptionsModel,
    addr: Seq<char>,
    rest: Seq<Seq<char>>,
    other: Seq<char>,
)
    ensures
        options_after(o, seq!["--print-tools"@] + rest) == options_after(
            McpOptionsModel { print_tools: true, ..o },
            rest,
        ),
        options_after(o, seq!["--stdio"@] + rest) == options_after(
            McpOptionsModel { stdio: true, ..o },
            rest,
        ),
        options_after(o, seq!["--bind"@, addr] + rest) == options_after(
            McpOptionsModel { bind_addr: addr, ..o },
            rest,
        ),
        options_after(o, seq!["--bind"@]) is None,
        other != "--print-tools"@ && other != "--stdio"@ && other != "--bind"@ ==> options_after(
            o,
            seq![other] + rest,
        ) is None,
        options_after(o, Seq::empty()) == Some(o),
{
    reveal_strlit("--print-tools");
    reveal_strlit("--stdio");
    reveal_strlit("--bind");
    assert("--print-tools"@[2] == 'p' && "--stdio"@[2] == 's' && "--bind"@[2] == 'b');
    assert((seq!["--print-tools"@] + rest).skip(1) =~= rest);
    assert((seq!["--stdio"@] + rest).skip(1) =~= rest);
    assert((seq!["--bind"@, addr] + rest).skip(2) =~= rest);
}

/// A cookie comes before a token, each without the white space around it; a token counts only where no
/// cookie is set, and what is blank is no credential.
pub proof fn cookies_come_before_tokens(
    left: Seq<char>,
    secret: Seq<char>,
    right: Seq<char>,
    token: Option<Seq<char>>,
)
    requires
        forall|i: int| 0 <= i < left.len() ==> is_white(#[trigger] left[i]),
        forall|i: int| 0 <= i < right.len() ==> is_white(#[trigger] right[i]),
        secret.len() > 0,
        !is_white(secret[0]),
        !is_white(secret.last()),
    ensures
        auth_of(Some(left + secret + right), token) == AuthModel::SessionCookie(secret),
        auth_of(None, Some(left + secret + right)) == AuthModel::BearerToken(secret),
        auth_of(None, None) == AuthModel::Anonymous,
        auth_of(None, Some(left)) == AuthModel::Anonymous,
        auth_of(Some(left), None) == AuthModel::Anonymous,
{
    trimming_removes_what_is_around(left, secret, right);
    let none = Seq::<char>::empty();
    assert(left + none + none =~= left);
    trimming_removes_what_is_around(left, none, none);
}

} // verus!
