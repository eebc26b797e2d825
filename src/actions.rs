//! The fixed actions of the tray menu: their identifiers, labels, place in
//! the menu, and the client command each one runs.
use vstd::prelude::*;
use crate::invocation::{Invocation, InvocationView, strs_view};

verus! {

/// A fixed entry of the tray menu.
#[derive(Clone, Copy, Debug, PartialEq, Eq, Structural)]
pub enum MenuAction {
    /// Connect the client.
    Connect,
    /// Disconnect the client.
    Disconnect,
    /// Print the client's status.
    Status,
    /// Connect automatically at startup.
    EnableAlwaysOn,
    /// Stop connecting automatically at startup.
    DisableAlwaysOn,
    /// Switch to the full WARP tunnel.
    ModeWarp,
    /// Switch to DNS over HTTPS only.
    ModeDoh,
    /// Switch to DNS over TLS only.
    ModeDot,
    /// Switch to the tunnel with DNS over HTTPS.
    ModeWarpDoh,
    /// Switch to the tunnel with DNS over TLS.
    ModeWarpDot,
    /// Leave the Teams organisation.
    TeamsUnenroll,
    /// Register this device.
    Register,
    /// Turn on debug logging.
    EnableLogging,
    /// Turn off debug logging.
    DisableLogging,
    /// Produce a trace report.
    TraceSupport,
    /// Produce a diagnostic report.
    GenerateReport,
    /// Placeholder entry that runs nothing.
    Save,
    /// Leave the tray application.
    Quit,
}

/// Where an action sits in the menu.
#[derive(Clone, Copy, Debug, PartialEq, Eq, Structural)]
pub enum MenuGroup {
    /// The top level of the menu.
    Main,
    /// The "On Startup" submenu.
    Startup,
    /// The "Set Mode" submenu.
    Mode,
    /// The "Other" submenu.
    Other,
}

/// The name of the client program that the actions run.
pub open spec fn warp_program() -> Seq<char> {
    "warp-cli"@
}

/// The menu identifier of each action.
pub open spec fn action_id(a: MenuAction) -> Seq<char> {
    match a {
        MenuAction::Connect => "connect"@,
        MenuAction::Disconnect => "disconnect"@,
        MenuAction::Status => "status"@,
        MenuAction::EnableAlwaysOn => "enable_always_on"@,
        MenuAction::DisableAlwaysOn => "disable_always_on"@,
        MenuAction::ModeWarp => "mode_warp"@,
        MenuAction::ModeDoh => "mode_doh"@,
        MenuAction::ModeDot => "mode_dot"@,
        MenuAction::ModeWarpDoh => "mode_warp_doh"@,
        MenuAction::ModeWarpDot => "mode_warp_dot"@,
        MenuAction::TeamsUnenroll => "teams_unenroll"@,
        MenuAction::Register => "register"@,
        MenuAction::EnableLogging => "enable_logging"@,
        MenuAction::DisableLogging => "disable_logging"@,
        MenuAction::TraceSupport => "trace_support"@,
        MenuAction::GenerateReport => "generate_report"@,
        MenuAction::Save => "save"@,
        MenuAction::Quit => "quit"@,
    }
}

/// The text shown for each action.
pub open spec fn action_label(a: MenuAction) -> Seq<char> {
    match a {
        MenuAction::Connect => "Connect"@,
        MenuAction::Disconnect => "Disconnect"@,
        MenuAction::Status => "Status"@,
        MenuAction::EnableAlwaysOn => "Enable Always-On"@,
        MenuAction::DisableAlwaysOn => "Disable Always-On"@,
        MenuAction::ModeWarp => "WARP"@,
        MenuAction::ModeDoh => "DoH (DNS over HTTPS)"@,
        MenuAction::ModeDot => "DoT (DNS over TLS)"@,
        MenuAction::ModeWarpDoh => "WARP+DoH"@,
        MenuAction::ModeWarpDot => "WARP+DoT"@,
        MenuAction::TeamsUnenroll => "Unenroll from Cloudflare for Teams"@,
        MenuAction::Register => "Register Device with Cloudflare"@,
        MenuAction::EnableLogging => "Enable Debug Logging"@,
        MenuAction::DisableLogging => "Disable Debug Logging"@,
        MenuAction::TraceSupport => "Generate Trace Report"@,
        MenuAction::GenerateReport => "Generate Diagnostic Report"@,
        MenuAction::Save => "Save"@,
        MenuAction::Quit => "Quit"@,
    }
}

/// The group each action belongs to.
pub open spec fn action_group(a: MenuAction) -> MenuGroup {
    match a {
        MenuAction::Connect => MenuGroup::Main,
        MenuAction::Disconnect => MenuGroup::Main,
        MenuAction::Status => MenuGroup::Main,
        MenuAction::EnableAlwaysOn => MenuGroup::Startup,
        MenuAction::DisableAlwaysOn => MenuGroup::Startup,
        MenuAction::ModeWarp => MenuGroup::Mode,
        MenuAction::ModeDoh => MenuGroup::Mode,
        MenuAction::ModeDot => MenuGroup::Mode,
        MenuAction::ModeWarpDoh => MenuGroup::Mode,
        MenuAction::ModeWarpDot => MenuGroup::Mode,
        MenuAction::TeamsUnenroll => MenuGroup::Other,
        MenuAction::Register => MenuGroup::Other,
        MenuAction::EnableLogging => MenuGroup::Other,
        MenuAction::DisableLogging => MenuGroup::Other,
        MenuAction::TraceSupport => MenuGroup::Other,
        MenuAction::GenerateReport => MenuGroup::Other,
        MenuAction::Save => MenuGroup::Main,
        MenuAction::Quit => MenuGroup::Main,
    }
}

/// The arguments each action hands to the client; `None` for the actions
/// that run nothing.
pub open spec fn warp_args(a: MenuAction) -> Option<Seq<Seq<char>>> {
    match a {
        MenuAction::Connect => Some(seq!["connect"@]),
        MenuAction::Disconnect => Some(seq!["disconnect"@]),
        MenuAction::Status => Some(seq!["status"@]),
        MenuAction::EnableAlwaysOn => Some(seq!["enable-always-on"@]),
        MenuAction::DisableAlwaysOn => Some(seq!["disable-always-on"@]),
        MenuAction::ModeWarp => Some(seq!["set-mode"@, "warp"@]),
        MenuAction::ModeDoh => Some(seq!["set-mode"@, "doh"@]),
        MenuAction::ModeDot => Some(seq!["set-mode"@, "dot"@]),
        MenuAction::ModeWarpDoh => Some(seq!["set-mode"@, "warp+doh"@]),
        MenuAction::ModeWarpDot => Some(seq!["set-mode"@, "warp+dot"@]),
        MenuAction::TeamsUnenroll => Some(seq!["teams-unenroll"@]),
        MenuAction::Register => Some(seq!["register"@]),
        MenuAction::EnableLogging => Some(seq!["enable-logging"@]),
        MenuAction::DisableLogging => Some(seq!["disable-logging"@]),
        MenuAction::TraceSupport => Some(seq!["trace-support"@]),
        MenuAction::GenerateReport => Some(seq!["generate-report"@]),
        MenuAction::Save => None,
        MenuAction::Quit => None,
    }
}

/// The client invocation of each action, if it has one.
pub open spec fn warp_invocation(a: MenuAction) -> Option<InvocationView> {
    match warp_args(a) {
        Some(args) => Some(InvocationView { program: warp_program(), args }),
        None => None,
    }
}

/// Every action, in menu order.
pub open spec fn all_actions() -> Seq<MenuAction> {
    seq![
        MenuAction::Connect,
        MenuAction::Disconnect,
        MenuAction::Status,
        MenuAction::EnableAlwaysOn,
        MenuAction::DisableAlwaysOn,
        MenuAction::ModeWarp,
        MenuAction::ModeDoh,
        MenuAction::ModeDot,
        MenuAction::ModeWarpDoh,
        MenuAction::ModeWarpDot,
        MenuAction::TeamsUnenroll,
        MenuAction::Register,
        MenuAction::EnableLogging,
        MenuAction::DisableLogging,
        MenuAction::TraceSupport,
        MenuAction::GenerateReport,
        MenuAction::Save,
        MenuAction::Quit,
    ]
}

/// The length, first and last character of each identifier: enough to
/// tell every two of them apart.
pub open spec fn id_shape(a: MenuAction) -> (nat, char, char) {
    match a {
        MenuAction::Connect => (7, 'c', 't'),
        MenuAction::Disconnect => (10, 'd', 't'),
        MenuAction::Status => (6, 's', 's'),
        MenuAction::EnableAlwaysOn => (16, 'e', 'n'),
        MenuAction::DisableAlwaysOn => (17, 'd', 'n'),
        MenuAction::ModeWarp => (9, 'm', 'p'),
        MenuAction::ModeDoh => (8, 'm', 'h'),
        MenuAction::ModeDot => (8, 'm', 't'),
        MenuAction::ModeWarpDoh => (13, 'm', 'h'),
        MenuAction::ModeWarpDot => (13, 'm', 't'),
        MenuAction::TeamsUnenroll => (14, 't', 'l'),
        MenuAction::Register => (8, 'r', 'r'),
        MenuAction::EnableLogging => (14, 'e', 'g'),
        MenuAction::DisableLogging => (15, 'd', 'g'),
        MenuAction::TraceSupport => (13, 't', 't'),
        MenuAction::GenerateReport => (15, 'g', 't'),
        MenuAction::Save => (4, 's', 'e'),
        MenuAction::Quit => (4, 'q', 't'),
    }
}

proof fn lemma_id_shape(a: MenuAction)
    ensures
        action_id(a).len() > 0,
        (action_id(a).len(), action_id(a)[0], action_id(a)[action_id(a).len() - 1]) == id_shape(a),
{
    match a {
        MenuAction::Connect => {
            reveal_strlit("connect");
        },
        MenuAction::Disconnect => {
            reveal_strlit("disconnect");
        },
        MenuAction::Status => {
            reveal_strlit("status");
        },
        MenuAction::EnableAlwaysOn => {
            reveal_strlit("enable_always_on");
        },
        MenuAction::DisableAlwaysOn => {
            reveal_strlit("disable_always_on");
        },
        MenuAction::ModeWarp => {
            reveal_strlit("mode_warp");
        },
        MenuAction::ModeDoh => {
            reveal_strlit("mode_doh");
        },
        MenuAction::ModeDot => {
            reveal_strlit("mode_dot");
        },
        MenuAction::ModeWarpDoh => {
            reveal_strlit("mode_warp_doh");
        },
        MenuAction::ModeWarpDot => {
            reveal_strlit("mode_warp_dot");
        },
        MenuAction::TeamsUnenroll => {
            reveal_strlit("teams_unenroll");
        },
        MenuAction::Register => {
            reveal_strlit("register");
        },
        MenuAction::EnableLogging => {
            reveal_strlit("enable_logging");
        },
        MenuAction::DisableLogging => {
            reveal_strlit("disable_logging");
        },
        MenuAction::TraceSupport => {
            reveal_strlit("trace_support");
        },
        MenuAction::GenerateReport => {
            reveal_strlit("generate_report");
        },
        MenuAction::Save => {
            reveal_strlit("save");
        },
        MenuAction::Quit => {
            reveal_strlit("quit");
        },
    }
}

/// No two actions share an identifier, and no identifier of an action
/// begins with `u` (that letter is left to the user's own commands).
pub proof fn lemma_action_ids_distinct(a: MenuAction, b: MenuAction)
    ensures
        action_id(a) == action_id(b) ==> a == b,
        action_id(a).len() > 0,
        action_id(a)[0] != 'u',
{
    lemma_id_shape(a);
    lemma_id_shape(b);
}

/// The action whose identifier is `id`.
pub open spec fn action_with_id(id: Seq<char>) -> Option<MenuAction> {
    if exists|a: MenuAction| action_id(a) == id {
        Some(choose|a: MenuAction| action_id(a) == id)
    } else {
        None
    }
}

fn warp_command(args: &[&str]) -> (r: Invocation)
    ensures
        r@.program == warp_program(),
        r@.args == strs_view(args@),
{
    Invocation::new("warp-cli", args)
}

fn warp1(a: &str) -> (r: Invocation)
    ensures
        r@ == (InvocationView { program: warp_program(), args: seq![a@] }),
{
    let r = warp_command(&[a]);
    assert(r@.args =~= seq![a@]);
    r
}

fn warp2(a: &str, b: &str) -> (r: Invocation)
    ensures
        r@ == (InvocationView { program: warp_program(), args: seq![a@, b@] }),
{
    let r = warp_command(&[a, b]);
    assert(r@.args =~= seq![a@, b@]);
    r
}

impl MenuAction {
    /// Every action, in menu order.
    pub fn all() -> (r: Vec<MenuAction>)
        ensures
            r@ == all_actions(),
    {
        let r = vec![
            MenuAction::Connect,
            MenuAction::Disconnect,
            MenuAction::Status,
            MenuAction::EnableAlwaysOn,
            MenuAction::DisableAlwaysOn,
            MenuAction::ModeWarp,
            MenuAction::ModeDoh,
            MenuAction::ModeDot,
            MenuAction::ModeWarpDoh,
            MenuAction::ModeWarpDot,
            MenuAction::TeamsUnenroll,
            MenuAction::Register,
            MenuAction::EnableLogging,
            MenuAction::DisableLogging,
            MenuAction::TraceSupport,
            MenuAction::GenerateReport,
            MenuAction::Save,
            MenuAction::Quit,
        ];
        assert(r@ =~= all_actions());
        r
    }

    /// The action whose menu identifier is `id`, if any.
    pub fn from_id(id: &String) -> (r: Option<MenuAction>)
        ensures
            r == action_with_id(id@),
            r is Some ==> action_id(r->0) == id@,
            r is None ==> forall|a: MenuAction| action_id(a) != id@,
    {
        let actions = MenuAction::all();
        let mut i: usize = 0;
        while i < actions.len()
            invariant
                actions@ == all_actions(),
                i <= actions@.len(),
                forall|k: int| 0 <= k < i ==> action_id(#[trigger] actions@[k]) != id@,
            decreases actions@.len() - i,
        {
            let a = actions[i];
            let candidate = String::from_str(a.id());
            if candidate == *id {
                proof {
                    assert forall|b: MenuAction| action_id(b) == id@ implies b == a by {
                        lemma_action_ids_distinct(a, b);
                    }
                }
                return Some(a);
            }
            i = i + 1;
        }
        proof {
            assert forall|a: MenuAction| action_id(a) != id@ by {
                assert(all_actions().contains(a));
            }
        }
        None
    }

    /// The menu identifier of this action.
    pub fn id(&self) -> (r: &'static str)
        ensures
            r@ == action_id(*self),
    {
        match self {
            MenuAction::Connect => "connect",
            MenuAction::Disconnect => "disconnect",
            MenuAction::Status => "status",
            MenuAction::EnableAlwaysOn => "enable_always_on",
            MenuAction::DisableAlwaysOn => "disable_always_on",
            MenuAction::ModeWarp => "mode_warp",
            MenuAction::ModeDoh => "mode_doh",
            MenuAction::ModeDot => "mode_dot",
            MenuAction::ModeWarpDoh => "mode_warp_doh",
            MenuAction::ModeWarpDot => "mode_warp_dot",
            MenuAction::TeamsUnenroll => "teams_unenroll",
            MenuAction::Register => "register",
            MenuAction::EnableLogging => "enable_logging",
            MenuAction::DisableLogging => "disable_logging",
            MenuAction::TraceSupport => "trace_support",
            MenuAction::GenerateReport => "generate_report",
            MenuAction::Save => "save",
            MenuAction::Quit => "quit",
        }
    }

    /// The text shown for this action.
    pub fn label(&self) -> (r: &'static str)
        ensures
            r@ == action_label(*self),
    {
        match self {
            MenuAction::Connect => "Connect",
            MenuAction::Disconnect => "Disconnect",
            MenuAction::Status => "Status",
            MenuAction::EnableAlwaysOn => "Enable Always-On",
            MenuAction::DisableAlwaysOn => "Disable Always-On",
            MenuAction::ModeWarp => "WARP",
            MenuAction::ModeDoh => "DoH (DNS over HTTPS)",
            MenuAction::ModeDot => "DoT (DNS over TLS)",
            MenuAction::ModeWarpDoh => "WARP+DoH",
            MenuAction::ModeWarpDot => "WARP+DoT",
            MenuAction::TeamsUnenroll => "Unenroll from Cloudflare for Teams",
            MenuAction::Register => "Register Device with Cloudflare",
            MenuAction::EnableLogging => "Enable Debug Logging",
            MenuAction::DisableLogging => "Disable Debug Logging",
            MenuAction::TraceSupport => "Generate Trace Report",
            MenuAction::GenerateReport => "Generate Diagnostic Report",
            MenuAction::Save => "Save",
            MenuAction::Quit => "Quit",
        }
    }

    /// The group this action belongs to.
    pub fn group(&self) -> (r: MenuGroup)
        ensures
            r == action_group(*self),
    {
        match self {
            MenuAction::Connect => MenuGroup::Main,
            MenuAction::Disconnect => MenuGroup::Main,
            MenuAction::Status => MenuGroup::Main,
            MenuAction::EnableAlwaysOn => MenuGroup::Startup,
            MenuAction::DisableAlwaysOn => MenuGroup::Startup,
            MenuAction::ModeWarp => MenuGroup::Mode,
            MenuAction::ModeDoh => MenuGroup::Mode,
            MenuAction::ModeDot => MenuGroup::Mode,
            MenuAction::ModeWarpDoh => MenuGroup::Mode,
            MenuAction::ModeWarpDot => MenuGroup::Mode,
            MenuAction::TeamsUnenroll => MenuGroup::Other,
            MenuAction::Register => MenuGroup::Other,
            MenuAction::EnableLogging => MenuGroup::Other,
            MenuAction::DisableLogging => MenuGroup::Other,
            MenuAction::TraceSupport => MenuGroup::Other,
            MenuAction::GenerateReport => MenuGroup::Other,
            MenuAction::Save => MenuGroup::Main,
            MenuAction::Quit => MenuGroup::Main,
        }
    }

    /// The client command this action runs: always the same program and the
    /// same fixed arguments, whoever selects it.
    pub fn warp_invocation(&self) -> (r: Option<Invocation>)
        ensures
            r is Some <==> warp_invocation(*self) is Some,
            r is Some ==> warp_invocation(*self) == Some(r->0@),
    {
        match self {
            MenuAction::Connect => Some(warp1("connect")),
            MenuAction::Disconnect => Some(warp1("disconnect")),
            MenuAction::Status => Some(warp1("status")),
            MenuAction::EnableAlwaysOn => Some(warp1("enable-always-on")),
            MenuAction::DisableAlwaysOn => Some(warp1("disable-always-on")),
            MenuAction::ModeWarp => Some(warp2("set-mode", "warp")),
            MenuAction::ModeDoh => Some(warp2("set-mode", "doh")),
            MenuAction::ModeDot => Some(warp2("set-mode", "dot")),
            MenuAction::ModeWarpDoh => Some(warp2("set-mode", "warp+doh")),
            MenuAction::ModeWarpDot => Some(warp2("set-mode", "warp+dot")),
            MenuAction::TeamsUnenroll => Some(warp1("teams-unenroll")),
            MenuAction::Register => Some(warp1("register")),
            MenuAction::EnableLogging => Some(warp1("enable-logging")),
            MenuAction::DisableLogging => Some(warp1("disable-logging")),
            MenuAction::TraceSupport => Some(warp1("trace-support")),
            MenuAction::GenerateReport => Some(warp1("generate-report")),
            MenuAction::Save => None,
            MenuAction::Quit => None,
        }
    }
}

} // verus!
