//! Discovery of the AI coding tools installed on the agent's machine. The
//! caller runs each tool's `--version` command; this module turns the
//! outcomes into executor descriptions.

use vstd::prelude::*;

use crate::protocol::{ExecutorInfo, ExecutorInfoView};
use crate::text::{trim, trim_str};

verus! {

/// The text `String::from_utf8_lossy` makes of some bytes.
pub uninterp spec fn utf8_lossy(bytes: Seq<u8>) -> Seq<char>;

/// Calls `String::from_utf8_lossy`. Claimed: the text is the named lossy
/// decoding of the bytes, and valid UTF-8 decodes to exactly its characters
/// (invalid sequences become U+FFFD, which is left unnamed).
#[verifier::external_body]
fn decode_utf8_lossy(bytes: &[u8]) -> (text: String)
    ensures
        text@ == utf8_lossy(bytes@),
        vstd::utf8::valid_utf8(bytes@) ==> text@ == vstd::utf8::decode_utf8(bytes@),
{
    String::from_utf8_lossy(bytes).into_owned()
}

/// The version a tool reports: when its `--version` command succeeded, its
/// standard output decoded (lossily) and trimmed; otherwise none.
pub fn version_from_output(success: bool, stdout: &[u8]) -> (version: Option<String>)
    ensures
        success ==> version is Some && version->0@ == trim(utf8_lossy(stdout@)),
        success && vstd::utf8::valid_utf8(stdout@) ==> version->0@ == trim(
            vstd::utf8::decode_utf8(stdout@),
        ),
        !success ==> version is None,
{
    if success {
        let text = decode_utf8_lossy(stdout);
        Some(trim_str(text.as_str()))
    } else {
        None
    }
}

/// The description of a discovered executor.
pub open spec fn executor_entry(executor_type: Seq<char>, version: Seq<char>, capabilities: Seq<Seq<char>>) -> ExecutorInfoView {
    ExecutorInfoView {
        executor_type,
        version: Some(version),
        capabilities,
        config_path: None,
    }
}

/// The entries for the tools found, in the order `claude_code`,
/// `gemini_cli`, `codex`.
pub open spec fn discovered_executors(
    claude_code: Option<Seq<char>>,
    gemini_cli: Option<Seq<char>>,
    codex: Option<Seq<char>>,
) -> Seq<ExecutorInfoView> {
    (match claude_code {
        Some(v) => seq![
            executor_entry(
                "claude_code"@,
                v,
                seq!["session_fork"@, "setup_helper"@, "slash_commands"@],
            ),
        ],
        None => Seq::empty(),
    }) + (match gemini_cli {
        Some(v) => seq![executor_entry("gemini_cli"@, v, seq!["session_fork"@])],
        None => Seq::empty(),
    }) + (match codex {
        Some(v) => seq![executor_entry("codex"@, v, seq!["session_fork"@])],
        None => Seq::empty(),
    })
}

/// The descriptions of a list of executors.
pub open spec fn executors_view(executors: Seq<ExecutorInfo>) -> Seq<ExecutorInfoView> {
    executors.map_values(|e: ExecutorInfo| e@)
}

fn string_list(items: Vec<&str>) -> (list: Vec<String>)
    ensures
        list@.len() == items@.len(),
        forall|i: int| 0 <= i < items@.len() ==> #[trigger] list@[i]@ == items@[i]@,
{
    let mut list: Vec<String> = Vec::new();
    let mut i: usize = 0;
    while i < items.len()
        invariant
            i <= items@.len(),
            list@.len() == i,
            forall|k: int| 0 <= k < i ==> #[trigger] list@[k]@ == items@[k]@,
        decreases items@.len() - i,
    {
        list.push(String::from_str(items[i]));
        i = i + 1;
    }
    list
}

fn entry(executor_type: &str, version: String, capabilities: Vec<&str>) -> (info: ExecutorInfo)
    ensures
        info@.executor_type == executor_type@,
        info@.version == Some(version@),
        info@.config_path is None,
        info@.capabilities.len() == capabilities@.len(),
        forall|i: int| 0 <= i < capabilities@.len() ==> #[trigger] info@.capabilities[i] == capabilities@[i]@,
{
    let caps = string_list(capabilities);
    let info = ExecutorInfo {
        executor_type: String::from_str(executor_type),
        version: Some(version),
        capabilities: caps,
        config_path: None,
    };
    assert forall|i: int| 0 <= i < capabilities@.len() implies #[trigger] info@.capabilities[i]
        == capabilities@[i]@ by {
        assert(info@.capabilities[i] == caps@[i]@);
    }
    info
}

/// Describes the executors whose versions were detected: `claude_code`
/// with session forking, setup helper and slash commands; `gemini_cli` and
/// `codex` with session forking. Tools not found are left out.
pub fn discover_executors(
    claude_code: Option<String>,
    gemini_cli: Option<String>,
    codex: Option<String>,
) -> (executors: Vec<ExecutorInfo>)
    ensures
        executors_view(executors@) == discovered_executors(
            crate::protocol::opt_view(claude_code),
            crate::protocol::opt_view(gemini_cli),
            crate::protocol::opt_view(codex),
        ),
        executors@.len() <= 3,
{
    let ghost c = crate::protocol::opt_view(claude_code);
    let ghost g = crate::protocol::opt_view(gemini_cli);
    let ghost x = crate::protocol::opt_view(codex);
    let ghost part_c: Seq<ExecutorInfoView> = match c {
        Some(v) => seq![
            executor_entry(
                "claude_code"@,
                v,
                seq!["session_fork"@, "setup_helper"@, "slash_commands"@],
            ),
        ],
        None => Seq::empty(),
    };
    let ghost part_g: Seq<ExecutorInfoView> = match g {
        Some(v) => seq![executor_entry("gemini_cli"@, v, seq!["session_fork"@])],
        None => Seq::empty(),
    };
    let ghost part_x: Seq<ExecutorInfoView> = match x {
        Some(v) => seq![executor_entry("codex"@, v, seq!["session_fork"@])],
        None => Seq::empty(),
    };
    let mut executors: Vec<ExecutorInfo> = Vec::new();
    assert(executors_view(executors@) =~= Seq::<ExecutorInfoView>::empty());
    if let Some(version) = claude_code {
        let caps = vec!["session_fork", "setup_helper", "slash_commands"];
        let e = entry("claude_code", version, caps);
        assert(e@.capabilities =~= seq!["session_fork"@, "setup_helper"@, "slash_commands"@]);
        executors.push(e);
        assert(executors_view(executors@) =~= part_c);
    }
    assert(executors_view(executors@) =~= part_c);
    let ghost after_c = executors@;
    if let Some(version) = gemini_cli {
        let caps = vec!["session_fork"];
        let e = entry("gemini_cli", version, caps);
        assert(e@.capabilities =~= seq!["session_fork"@]);
        executors.push(e);
        assert(executors@ =~= after_c.push(e));
        assert(executors_view(executors@) =~= executors_view(after_c).push(e@));
    }
    assert(executors_view(executors@) =~= part_c + part_g);
    let ghost after_g = executors@;
    if let Some(version) = codex {
        let caps = vec!["session_fork"];
        let e = entry("codex", version, caps);
        assert(e@.capabilities =~= seq!["session_fork"@]);
        executors.push(e);
        assert(executors@ =~= after_g.push(e));
        assert(executors_view(executors@) =~= executors_view(after_g).push(e@));
    }
    assert(executors_view(executors@) =~= part_c + part_g + part_x);
    executors
}


/// The version detected for the tool of type `executor_type`.
pub open spec fn detected_version(
    claude_code: Option<Seq<char>>,
    gemini_cli: Option<Seq<char>>,
    codex: Option<Seq<char>>,
    executor_type: Seq<char>,
) -> Option<Seq<char>> {
    if executor_type == "claude_code"@ {
        claude_code
    } else if executor_type == "gemini_cli"@ {
        gemini_cli
    } else if executor_type == "codex"@ {
        codex
    } else {
        None
    }
}

/// Discovery reports exactly the detected tools, one entry each, and every
/// entry carries the version detected for its own tool and no config path;
/// the `claude_code` entry has session forking, setup helper and slash commands, the
/// other two session forking.
pub proof fn law_discovery_reports_detected_versions(
    claude_code: Option<Seq<char>>,
    gemini_cli: Option<Seq<char>>,
    codex: Option<Seq<char>>,
)
    ensures
        ({
            let es = discovered_executors(claude_code, gemini_cli, codex);
            &&& es.len() == (if claude_code is Some { 1int } else { 0int }) + (if gemini_cli is Some {
                1int
            } else {
                0int
            }) + (if codex is Some { 1int } else { 0int })
            &&& forall|i: int|
                0 <= i < es.len() ==> {
                    &&& (#[trigger] es[i]).version is Some
                    &&& es[i].version == detected_version(
                        claude_code,
                        gemini_cli,
                        codex,
                        es[i].executor_type,
                    )
                    &&& es[i].config_path is None
                    &&& es[i].capabilities == if es[i].executor_type == "claude_code"@ {
                        seq!["session_fork"@, "setup_helper"@, "slash_commands"@]
                    } else {
                        seq!["session_fork"@]
                    }
                }
            &&& forall|j: int|
                0 <= j < 3 && detected_version(claude_code, gemini_cli, codex, #[trigger] probed_types()[j])
                    is Some ==> exists|i: int|
                    0 <= i < es.len() && es[i].executor_type == probed_types()[j]
            &&& forall|i: int, k: int|
                0 <= i < k < es.len() ==> es[i].executor_type != es[k].executor_type
        }),
{
    reveal_strlit("claude_code");
    reveal_strlit("gemini_cli");
    reveal_strlit("codex");
    assert("claude_code"@.len() == 11);
    assert("gemini_cli"@.len() == 10);
    assert("codex"@.len() == 5);
    let es = discovered_executors(claude_code, gemini_cli, codex);
    let pc: Seq<ExecutorInfoView> = match claude_code {
        Some(v) => seq![
            executor_entry(
                "claude_code"@,
                v,
                seq!["session_fork"@, "setup_helper"@, "slash_commands"@],
            ),
        ],
        None => Seq::empty(),
    };
    let pg: Seq<ExecutorInfoView> = match gemini_cli {
        Some(v) => seq![executor_entry("gemini_cli"@, v, seq!["session_fork"@])],
        None => Seq::empty(),
    };
    let px: Seq<ExecutorInfoView> = match codex {
        Some(v) => seq![executor_entry("codex"@, v, seq!["session_fork"@])],
        None => Seq::empty(),
    };
    assert(es == pc + pg + px);
    assert forall|i: int| 0 <= i < es.len() implies {
        &&& (#[trigger] es[i]).version is Some
        &&& es[i].version == detected_version(claude_code, gemini_cli, codex, es[i].executor_type)
        &&& es[i].config_path is None
        &&& es[i].capabilities == if es[i].executor_type == "claude_code"@ {
            seq!["session_fork"@, "setup_helper"@, "slash_commands"@]
        } else {
            seq!["session_fork"@]
        }
    } by {
        if i < pc.len() {
            assert(es[i] == pc[i]);
        } else if i < pc.len() + pg.len() {
            assert(es[i] == pg[i - pc.len()]);
        } else {
            assert(es[i] == px[i - pc.len() - pg.len()]);
        }
    }
    assert forall|j: int|
        0 <= j < 3 && detected_version(claude_code, gemini_cli, codex, #[trigger] probed_types()[j])
            is Some implies exists|i: int|
            0 <= i < es.len() && es[i].executor_type == probed_types()[j] by {
        if j == 0 {
            assert(es[0] == pc[0]);
        } else if j == 1 {
            assert(es[pc.len() as int] == pg[0]);
        } else {
            assert(es[(pc.len() + pg.len()) as int] == px[0]);
        }
    }
    assert forall|i: int, k: int| 0 <= i < k < es.len() implies es[i].executor_type
        != es[k].executor_type by {
        if i < pc.len() {
            assert(es[i] == pc[i]);
        } else if i < pc.len() + pg.len() {
            assert(es[i] == pg[i - pc.len()]);
        } else {
            assert(es[i] == px[i - pc.len() - pg.len()]);
        }
        if k < pc.len() {
            assert(es[k] == pc[k]);
        } else if k < pc.len() + pg.len() {
            assert(es[k] == pg[k - pc.len()]);
        } else {
            assert(es[k] == px[k - pc.len() - pg.len()]);
        }
    }
}

/// The executor types probed for, in discovery order.
pub open spec fn probed_types() -> Seq<Seq<char>> {
    seq!["claude_code"@, "gemini_cli"@, "codex"@]
}

/// The command that prints a tool's version: its executor type with
/// underscores written as hyphens.
pub open spec fn command_name(executor_type: Seq<char>) -> Seq<char> {
    executor_type.map_values(|c: char| if c == '_' { '-' } else { c })
}

/// The program run with `--version` to detect an executor type.
pub fn version_command(executor_type: &str) -> (program: String)
    ensures
        program@ == command_name(executor_type@),
{
    let chars = crate::text::chars_of(executor_type);
    let mut out: Vec<char> = Vec::new();
    let mut i: usize = 0;
    while i < chars.len()
        invariant
            i <= chars@.len(),
            chars@ == executor_type@,
            out@ == command_name(chars@.take(i as int)),
        decreases chars@.len() - i,
    {
        let c = chars[i];
        out.push(if c == '_' { '-' } else { c });
        assert(command_name(chars@.take(i + 1)) =~= command_name(chars@.take(i as int)).push(
            if c == '_' { '-' } else { c },
        ));
        i = i + 1;
    }
    assert(chars@.take(chars@.len() as int) =~= chars@);
    crate::text::string_from_chars(out.as_slice())
}

} // verus!
