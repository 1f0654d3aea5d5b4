//! Agent tokens and the `docker run` command shown to the user after a
//! server is created or its token regenerated.

use vstd::prelude::*;

use crate::text::{chars_of, push_char};

verus! {

/// The replacement text for one character: a single quote becomes `'\''`
/// (close the quote, an escaped quote, reopen), anything else stays.
pub open spec fn escaped_char(c: char) -> Seq<char> {
    if c == '\'' {
        seq!['\'', '\\', '\'', '\'']
    } else {
        seq![c]
    }
}

/// `s` with every single quote replaced by `'\''`, so that it can stand
/// between single quotes in a POSIX shell.
pub open spec fn escape_single_quotes(s: Seq<char>) -> Seq<char>
    decreases s.len(),
{
    if s.len() == 0 {
        Seq::empty()
    } else {
        escape_single_quotes(s.drop_last()) + escaped_char(s.last())
    }
}

/// Characters that, outside quotes, would end a shell word or give it a
/// meaning other than its literal text.
pub open spec fn is_shell_special(c: char) -> bool {
    c == ' ' || c == '\t' || c == '\n' || c == '\r' || c == ';' || c == '&' || c == '|' || c
        == '$' || c == '`' || c == '(' || c == ')' || c == '<' || c == '>' || c == '"' || c == '*'
        || c == '?' || c == '[' || c == ']' || c == '#' || c == '~' || c == '{' || c == '}' || c
        == '!' || c == '='
}

/// The literal value of one shell word made of single-quoted segments,
/// backslash escapes and plain characters, read from `w` with `quoted`
/// telling whether a single quote is open. `None` when a quote is left
/// open, a backslash has nothing to escape, or an unquoted special
/// character appears (the text would not be one literal word).
pub open spec fn shell_word(w: Seq<char>, quoted: bool) -> Option<Seq<char>>
    decreases w.len(),
{
    if w.len() == 0 {
        if quoted {
            None
        } else {
            Some(Seq::empty())
        }
    } else if quoted {
        if w[0] == '\'' {
            shell_word(w.drop_first(), false)
        } else {
            match shell_word(w.drop_first(), true) {
                Some(v) => Some(seq![w[0]] + v),
                None => None,
            }
        }
    } else if w[0] == '\'' {
        shell_word(w.drop_first(), true)
    } else if w[0] == '\\' {
        if w.len() < 2 {
            None
        } else {
            match shell_word(w.subrange(2, w.len() as int), false) {
                Some(v) => Some(seq![w[1]] + v),
                None => None,
            }
        }
    } else if is_shell_special(w[0]) {
        None
    } else {
        match shell_word(w.drop_first(), false) {
            Some(v) => Some(seq![w[0]] + v),
            None => None,
        }
    }
}

/// Escaping distributes over concatenation.
pub proof fn lemma_escape_concat(a: Seq<char>, b: Seq<char>)
    ensures
        escape_single_quotes(a + b) == escape_single_quotes(a) + escape_single_quotes(b),
    decreases b.len(),
{
    if b.len() == 0 {
        assert(a + b =~= a);
        assert(escape_single_quotes(b) =~= Seq::<char>::empty());
        assert(escape_single_quotes(a) + escape_single_quotes(b) =~= escape_single_quotes(a));
    } else {
        lemma_escape_concat(a, b.drop_last());
        assert((a + b).drop_last() =~= a + b.drop_last());
        assert((a + b).last() == b.last());
        assert(escape_single_quotes(a) + escape_single_quotes(b) =~= escape_single_quotes(a)
            + escape_single_quotes(b.drop_last()) + escaped_char(b.last()));
    }
}

proof fn lemma_escape_first(s: Seq<char>)
    requires
        s.len() > 0,
    ensures
        escape_single_quotes(s) == escaped_char(s[0]) + escape_single_quotes(s.drop_first()),
{
    assert(s =~= seq![s[0]] + s.drop_first());
    lemma_escape_concat(seq![s[0]], s.drop_first());
    assert(seq![s[0]].drop_last() =~= Seq::<char>::empty());
    assert(escape_single_quotes(seq![s[0]]) =~= escaped_char(s[0])) by {
        reveal_with_fuel(escape_single_quotes, 2);
    }
}

/// Inside an open single quote, the escaped text of `s` reads back as `s`
/// and leaves the quote open again for what follows.
proof fn lemma_escaped_reads_back(s: Seq<char>, t: Seq<char>)
    ensures
        shell_word(escape_single_quotes(s) + t, true) == match shell_word(t, true) {
            Some(v) => Some(s + v),
            None => None::<Seq<char>>,
        },
    decreases s.len(),
{
    if s.len() == 0 {
        assert(escape_single_quotes(s) + t =~= t);
        match shell_word(t, true) {
            Some(v) => {
                assert(s + v =~= v);
            },
            None => {},
        }
    } else {
        let c = s[0];
        let rest = s.drop_first();
        lemma_escape_first(s);
        lemma_escaped_reads_back(rest, t);
        let tail = escape_single_quotes(rest) + t;
        let w = escape_single_quotes(s) + t;
        if c == '\'' {
            assert(w =~= seq!['\'', '\\', '\'', '\''] + tail);
            let w1 = w.drop_first();
            assert(w1 =~= seq!['\\', '\'', '\''] + tail);
            let w2 = w1.subrange(2, w1.len() as int);
            assert(w2 =~= seq!['\''] + tail);
            assert(w2.drop_first() =~= tail);
            assert(shell_word(w, true) == shell_word(w1, false));
            assert(shell_word(w2, false) == shell_word(tail, true));
            match shell_word(tail, true) {
                Some(u) => {
                    assert(shell_word(w1, false) == Some(seq![w1[1]] + u));
                },
                None => {
                    assert(shell_word(w1, false) == None::<Seq<char>>);
                },
            }
        } else {
            assert(w =~= seq![c] + tail);
            assert(w.drop_first() =~= tail);
            match shell_word(tail, true) {
                Some(u) => {
                    assert(shell_word(w, true) == Some(seq![w[0]] + u));
                },
                None => {
                    assert(shell_word(w, true) == None::<Seq<char>>);
                },
            }
        }
        match shell_word(t, true) {
            Some(v) => {
                assert(seq![c] + (rest + v) =~= s + v);
            },
            None => {},
        }
    }
}

/// A value escaped and wrapped in single quotes, as the docker command
/// writes it, is read by the shell as exactly one word whose value is the
/// original text: no quote in the value can end the quoting early.
pub proof fn law_single_quoted_value_reads_back(s: Seq<char>)
    ensures
        shell_word(seq!['\''] + escape_single_quotes(s) + seq!['\''], false) == Some(s),
{
    let w = seq!['\''] + escape_single_quotes(s) + seq!['\''];
    assert(w.drop_first() =~= escape_single_quotes(s) + seq!['\'']);
    lemma_escaped_reads_back(s, seq!['\'']);
    let q = seq!['\''];
    assert(q.drop_first() =~= Seq::<char>::empty());
    assert(shell_word(q, true) == shell_word(Seq::<char>::empty(), false));
    assert(shell_word(q, true) == Some(Seq::<char>::empty()));
    assert(s + Seq::<char>::empty() =~= s);
    assert(w[0] == '\'');
    assert(shell_word(w, false) == shell_word(w.drop_first(), true));
}

/// Replaces every single quote in `text` by `'\''`.
pub fn escape_single_quotes_str(text: &str) -> (escaped: String)
    ensures
        escaped@ == escape_single_quotes(text@),
{
    let chars = chars_of(text);
    let mut out = String::new();
    let mut i: usize = 0;
    while i < chars.len()
        invariant
            i <= chars@.len(),
            chars@ == text@,
            out@ == escape_single_quotes(chars@.take(i as int)),
        decreases chars@.len() - i,
    {
        let c = chars[i];
        assert(chars@.take(i + 1).drop_last() =~= chars@.take(i as int));
        if c == '\'' {
            push_char(&mut out, '\'');
            push_char(&mut out, '\\');
            push_char(&mut out, '\'');
            push_char(&mut out, '\'');
        } else {
            push_char(&mut out, c);
        }
        assert(out@ =~= escape_single_quotes(chars@.take(i + 1)));
        i = i + 1;
    }
    assert(chars@.take(chars@.len() as int) =~= chars@);
    out
}

/// The command text before the centre URL.
pub open spec fn docker_head() -> Seq<char> {
    "docker run -d \\\n  --name vibe-agent \\\n  --restart unless-stopped \\\n  -e CENTER_URL='"@
}

/// The command text between the centre URL and the token.
pub open spec fn docker_middle() -> Seq<char> {
    "' \\\n  -e AGENT_TOKEN='"@
}

/// The command text after the token.
pub open spec fn docker_tail() -> Seq<char> {
    "' \\\n  -v /path/to/repos:/app/workspaces \\\n  -v /path/to/config:/app/config \\\n  vibe-agent-daemon:latest"@
}

/// The docker command for a centre URL and agent token: both values are
/// escaped and stand inside single quotes.
pub open spec fn docker_command_text(center_url: Seq<char>, agent_token: Seq<char>) -> Seq<char> {
    docker_head() + escape_single_quotes(center_url) + docker_middle() + escape_single_quotes(
        agent_token,
    ) + docker_tail()
}

/// Builds the `docker run` command that starts an agent daemon connected to
/// `center_url` with `agent_token`, single-quoting both values against shell
/// injection.
pub fn generate_docker_command(center_url: &str, agent_token: &str) -> (command: String)
    ensures
        command@ == docker_command_text(center_url@, agent_token@),
{
    let safe_url = escape_single_quotes_str(center_url);
    let safe_token = escape_single_quotes_str(agent_token);
    let mut command = String::from_str(
        "docker run -d \\\n  --name vibe-agent \\\n  --restart unless-stopped \\\n  -e CENTER_URL='",
    );
    command.append(safe_url.as_str());
    command.append("' \\\n  -e AGENT_TOKEN='");
    command.append(safe_token.as_str());
    command.append(
        "' \\\n  -v /path/to/repos:/app/workspaces \\\n  -v /path/to/config:/app/config \\\n  vibe-agent-daemon:latest",
    );
    command
}

/// The URL-safe base64 text, without padding, of `bytes`.
pub uninterp spec fn base64_url_nopad(bytes: Seq<u8>) -> Seq<char>;

/// The length of unpadded base64 text for `n` bytes: four characters per
/// three bytes, and two or three for a final one or two bytes.
pub open spec fn base64_nopad_len(n: nat) -> nat {
    n / 3 * 4 + if n % 3 == 1 {
        2nat
    } else if n % 3 == 2 {
        3nat
    } else {
        0nat
    }
}

/// A character of the URL-safe base64 alphabet: `A-Z`, `a-z`, `0-9`, `-`
/// and `_`.
pub open spec fn is_url_safe_base64_char(c: char) -> bool {
    ('A' <= c && c <= 'Z') || ('a' <= c && c <= 'z') || ('0' <= c && c <= '9') || c == '-'
        || c == '_'
}

/// Calls `base64::Engine::encode` with `URL_SAFE_NO_PAD`. Claimed: the text
/// is the named encoding of the bytes; its length is the unpadded encoded
/// length (`base64::encoded_len` without padding) and every character is of
/// the URL-safe alphabet. The engine panics only when the output length
/// overflows `usize`, which the bound rules out.
#[verifier::external_body]
fn encode_base64_url_nopad(bytes: &[u8]) -> (text: String)
    requires
        bytes@.len() <= usize::MAX / 4 * 3,
    ensures
        text@ == base64_url_nopad(bytes@),
        text@.len() == base64_nopad_len(bytes@.len()),
        forall|k: int| 0 <= k < text@.len() ==> is_url_safe_base64_char(#[trigger] text@[k]),
{
    base64::Engine::encode(&base64::engine::general_purpose::URL_SAFE_NO_PAD, bytes)
}

/// Calls `rand::Rng::random::<[u8; 32]>` on `rand::rng()`. Claimed: 32
/// bytes come back; their values depend on chance and nothing is said of
/// them.
#[verifier::external_body]
fn random_token_bytes() -> (bytes: Vec<u8>)
    ensures
        bytes@.len() == 32,
{
    let bytes: [u8; 32] = rand::Rng::random(&mut rand::rng());
    bytes.to_vec()
}

/// The prefix every agent token carries.
pub open spec fn agent_token_prefix() -> Seq<char> {
    "vk_agent_"@
}

/// The agent token made from the given random bytes: `vk_agent_` followed
/// by their URL-safe unpadded base64 text.
pub fn agent_token_from_bytes(bytes: &[u8]) -> (token: String)
    requires
        bytes@.len() <= usize::MAX / 4 * 3,
    ensures
        token@ == agent_token_prefix() + base64_url_nopad(bytes@),
        token@.len() == 9 + base64_nopad_len(bytes@.len()),
        forall|k: int|
            9 <= k < token@.len() ==> is_url_safe_base64_char(#[trigger] token@[k]),
{
    let encoded = encode_base64_url_nopad(bytes);
    let mut token = String::from_str("vk_agent_");
    proof {
        reveal_strlit("vk_agent_");
    }
    token.append(encoded.as_str());
    assert forall|k: int| 9 <= k < token@.len() implies is_url_safe_base64_char(
        #[trigger] token@[k],
    ) by {
        assert(token@[k] == encoded@[k - 9]);
    }
    token
}

/// An agent token as `generate_agent_token` makes them: `vk_agent_` and the
/// 43-character URL-safe unpadded base64 text of 32 bytes.
pub open spec fn is_agent_token(token: Seq<char>) -> bool {
    &&& exists|bytes: Seq<u8>|
        bytes.len() == 32 && token == agent_token_prefix() + base64_url_nopad(bytes)
    &&& token.len() == 52
    &&& token.subrange(0, 9) == agent_token_prefix()
    &&& forall|k: int| 9 <= k < token.len() ==> is_url_safe_base64_char(#[trigger] token[k])
}

/// Generates a fresh agent token from 32 random bytes.
pub fn generate_agent_token() -> (token: String)
    ensures
        is_agent_token(token@),
        exists|bytes: Seq<u8>|
            bytes.len() == 32 && token@ == agent_token_prefix() + base64_url_nopad(bytes),
        token@.len() == 52,
        token@.subrange(0, 9) == agent_token_prefix(),
        forall|k: int|
            9 <= k < token@.len() ==> is_url_safe_base64_char(#[trigger] token@[k]),
{
    let bytes = random_token_bytes();
    let token = agent_token_from_bytes(bytes.as_slice());
    assert(bytes@.len() == 32 && token@ == agent_token_prefix() + base64_url_nopad(bytes@));
    proof {
        reveal_strlit("vk_agent_");
        assert(token@.subrange(0, 9) =~= agent_token_prefix());
    }
    token
}

} // verus!
