//! Alerts and the messages they are delivered as.
//!
//! Measured quantities reach this module as text: whoever raises an alert
//! renders each quantity with the precision it is shown at.

use vstd::prelude::*;
use vstd::string::StringExecFns;
use crate::command::{decimal, format_unsigned};

verus! {

/// How serious an alert is.
#[derive(Clone, Copy, Debug, PartialEq, Eq, Structural)]
pub enum SeverityLevel {
    Normal,
    Warning,
    Critical,
}

/// The state of a container.
#[derive(Clone, Copy, Debug, PartialEq, Eq, Structural)]
pub enum DockerContainerState {
    Unknown,
    NotDeployed,
    Created,
    Restarting,
    Running,
    Removing,
    Paused,
    Exited,
    Dead,
}

/// One of the processes that use a server most.
#[derive(Clone, Debug, PartialEq, Eq)]
pub struct SystemProcess {
    pub name: String,
    /// The share of the processor in percent, with one decimal.
    pub cpu_perc: String,
    /// The memory in GiB, with one decimal.
    pub mem_gb: String,
}

/// Something the control plane noticed and reports.
#[derive(Clone, Debug, PartialEq, Eq)]
pub enum Alert {
    ServerUnreachable { id: String, name: String, region: Option<String> },
    ServerCpu {
        id: String,
        name: String,
        region: Option<String>,
        state: SeverityLevel,
        /// The load in percent, with one decimal.
        percentage: String,
        top_procs: Vec<SystemProcess>,
    },
    ServerMem {
        id: String,
        name: String,
        region: Option<String>,
        state: SeverityLevel,
        /// The share of memory in use in percent, with one decimal.
        percentage: String,
        /// The memory in use in GiB, with one decimal.
        used_gb: String,
        /// The memory installed in GiB, with one decimal.
        total_gb: String,
        top_procs: Vec<SystemProcess>,
    },
    ServerDisk {
        id: String,
        name: String,
        region: Option<String>,
        state: SeverityLevel,
        path: String,
        /// The share of the disk in use in percent, with one decimal.
        percentage: String,
        /// The space in use in GiB, with one decimal.
        used_gb: String,
        /// The size of the disk in GiB, with one decimal.
        total_gb: String,
    },
    ServerTemp {
        id: String,
        name: String,
        region: Option<String>,
        state: SeverityLevel,
        /// The temperature in degrees Celsius, without decimals.
        temp: String,
        /// The highest temperature allowed, without decimals.
        max: String,
    },
    ContainerStateChange {
        id: String,
        name: String,
        server: String,
        from: DockerContainerState,
        to: DockerContainerState,
    },
    /// No alert.
    Empty,
}

/// A request for a page of alerts.
#[derive(Clone, Copy, Debug, PartialEq, Eq, Structural)]
pub struct ListAlerts {
    /// The page asked for, from zero.
    pub page: u64,
    /// Whether alerts that are resolved are listed too.
    pub include_resolved: bool,
}

impl Default for ListAlerts {
    fn default() -> (request: ListAlerts)
        ensures
            request == (ListAlerts { page: 0, include_resolved: false }),
    {
        ListAlerts { page: 0, include_resolved: false }
    }
}

/// A page of alerts.
#[derive(Clone, Debug, PartialEq, Eq)]
pub struct ListAlertsResponse {
    pub alerts: Vec<Alert>,
    /// The page to ask for next; absent after the last page.
    pub next_page: Option<i64>,
}

/// A block of a message: a header line or a section of text.
#[derive(Clone, Debug, PartialEq, Eq)]
pub enum Block {
    Header(String),
    Section(String),
}

/// A block as a mathematical value.
pub enum BlockView {
    Header(Seq<char>),
    Section(Seq<char>),
}

impl View for Block {
    type V = BlockView;

    open spec fn view(&self) -> BlockView {
        match self {
            Block::Header(text) => BlockView::Header(text@),
            Block::Section(text) => BlockView::Section(text@),
        }
    }
}

/// The views of a sequence of blocks.
pub open spec fn block_views(blocks: Seq<Block>) -> Seq<BlockView> {
    blocks.map_values(|block: Block| block@)
}

/// A message for a chat channel: a line of text, and blocks that show the
/// same in more detail.
#[derive(Clone, Debug, PartialEq, Eq)]
pub struct SlackMessage {
    pub text: String,
    pub blocks: Vec<Block>,
}

/// The word a severity is shown as.
pub open spec fn severity_text(level: SeverityLevel) -> Seq<char> {
    match level {
        SeverityLevel::Normal => "OK"@,
        SeverityLevel::Warning => "WARNING"@,
        SeverityLevel::Critical => "CRITICAL"@,
    }
}

/// The word a container state is named by.
pub open spec fn state_name(state: DockerContainerState) -> Seq<char> {
    match state {
        DockerContainerState::Unknown => "unknown"@,
        DockerContainerState::NotDeployed => "not_deployed"@,
        DockerContainerState::Created => "created"@,
        DockerContainerState::Restarting => "restarting"@,
        DockerContainerState::Running => "running"@,
        DockerContainerState::Removing => "removing"@,
        DockerContainerState::Paused => "paused"@,
        DockerContainerState::Exited => "exited"@,
        DockerContainerState::Dead => "dead"@,
    }
}

/// How a container state is shown in a message: four states have a
/// wording of their own, the others go by their name.
pub open spec fn state_text(state: DockerContainerState) -> Seq<char> {
    match state {
        DockerContainerState::Running => "Running ▶️"@,
        DockerContainerState::Exited => "Exited 🛑"@,
        DockerContainerState::Restarting => "Restarting 🔄"@,
        DockerContainerState::NotDeployed => "Not Deployed"@,
        _ => state_name(state),
    }
}

/// How a region is shown after a server's name: in brackets after a
/// space, or not at all.
pub open spec fn region_text(region: Option<String>) -> Seq<char> {
    match region {
        Some(region) => " ("@ + region@ + ")"@,
        None => Seq::empty(),
    }
}

/// The line of the process at position `number`, counted from one.
pub open spec fn process_line(number: nat, process: SystemProcess) -> Seq<char> {
    "\n"@ + decimal(number) + ". *"@ + process.name@ + "* | *"@ + process.cpu_perc@ + "%* CPU | *"@
        + process.mem_gb@ + " GiB* MEM"@
}

/// The numbered lines of the processes, in their order.
pub open spec fn top_procs_text(processes: Seq<SystemProcess>) -> Seq<char>
    decreases processes.len(),
{
    if processes.len() == 0 {
        Seq::empty()
    } else {
        top_procs_text(processes.drop_last()) + process_line(processes.len(), processes.last())
    }
}

/// The word a severity is shown as.
pub fn severity_label(level: SeverityLevel) -> (label: &'static str)
    ensures
        label@ == severity_text(level),
{
    match level {
        SeverityLevel::Normal => "OK",
        SeverityLevel::Warning => "WARNING",
        SeverityLevel::Critical => "CRITICAL",
    }
}

/// The word a container state is named by.
pub fn container_state_name(state: DockerContainerState) -> (name: &'static str)
    ensures
        name@ == state_name(state),
{
    match state {
        DockerContainerState::Unknown => "unknown",
        DockerContainerState::NotDeployed => "not_deployed",
        DockerContainerState::Created => "created",
        DockerContainerState::Restarting => "restarting",
        DockerContainerState::Running => "running",
        DockerContainerState::Removing => "removing",
        DockerContainerState::Paused => "paused",
        DockerContainerState::Exited => "exited",
        DockerContainerState::Dead => "dead",
    }
}

/// How a container state is shown in a message.
pub fn fmt_docker_container_state(state: &DockerContainerState) -> (text: String)
    ensures
        text@ == state_text(*state),
{
    match state {
        DockerContainerState::Running => String::from_str("Running ▶️"),
        DockerContainerState::Exited => String::from_str("Exited 🛑"),
        DockerContainerState::Restarting => String::from_str("Restarting 🔄"),
        DockerContainerState::NotDeployed => String::from_str("Not Deployed"),
        _ => String::from_str(container_state_name(*state)),
    }
}

/// How a region is shown after a server's name.
pub fn fmt_region(region: &Option<String>) -> (text: String)
    ensures
        text@ == region_text(*region),
{
    match region {
        Some(region) => {
            let mut text = String::from_str(" (");
            text.append(region.as_str());
            text.append(")");
            text
        },
        None => String::new(),
    }
}

/// The numbered lines of the processes that use a server most.
pub fn fmt_top_procs(top_procs: &Vec<SystemProcess>) -> (text: String)
    ensures
        text@ == top_procs_text(top_procs@),
{
    let mut text = String::new();
    let mut i: usize = 0;
    while i < top_procs.len()
        invariant
            i <= top_procs@.len(),
            text@ == top_procs_text(top_procs@.subrange(0, i as int)),
        decreases top_procs@.len() - i,
    {
        proof {
            assert(top_procs@.subrange(0, i + 1).drop_last() =~= top_procs@.subrange(0, i as int));
        }
        let ghost held = text@;
        let process = &top_procs[i];
        let number = format_unsigned((i as u64) + 1);
        text.append("\n");
        text.append(number.as_str());
        text.append(". *");
        text.append(process.name.as_str());
        text.append("* | *");
        text.append(process.cpu_perc.as_str());
        text.append("%* CPU | *");
        text.append(process.mem_gb.as_str());
        text.append(" GiB* MEM");
        assert(text@ =~= held + process_line((i + 1) as nat, *process));
        i += 1;
    }
    assert(top_procs@.subrange(0, i as int) =~= top_procs@);
    text
}

/// A server's name as a message shows it: in asterisks, followed by the
/// region.
pub open spec fn server_text(name: String, region: Option<String>) -> Seq<char> {
    "*"@ + name@ + "*"@ + region_text(region)
}

/// The header of an alert about a server's load.
pub open spec fn headline(state: SeverityLevel) -> Seq<char> {
    severity_text(state) + " 🚨"@
}

/// What an alert says in its first section; empty for no alert.
pub open spec fn alert_detail(alert: Alert) -> Seq<char> {
    match alert {
        Alert::ServerUnreachable { name, region, .. } => server_text(name, region)
            + " is *unreachable* ❌"@,
        Alert::ServerCpu { name, region, percentage, .. } => server_text(name, region)
            + " cpu usage at *"@ + percentage@ + "%* 📈 🚨"@,
        Alert::ServerMem { name, region, percentage, .. } => server_text(name, region)
            + " memory usage at *"@ + percentage@ + "%* 💾 🚨"@,
        Alert::ServerDisk { name, region, percentage, .. } => server_text(name, region)
            + " disk usage at *"@ + percentage@ + "%* 💿 🚨"@,
        Alert::ServerTemp { name, region, temp, max, .. } => server_text(name, region)
            + " temp at "@ + temp@ + " °C (max: "@ + max@ + " °C) 🌡️ 🚨"@,
        Alert::ContainerStateChange { name, to, .. } => "📦 container *"@ + name@
            + "* is now "@ + state_text(to),
        Alert::Empty => Seq::empty(),
    }
}

/// The header of an alert; empty for no alert.
pub open spec fn alert_header(alert: Alert) -> Seq<char> {
    match alert {
        Alert::ServerUnreachable { .. } => "CRITICAL 🚨"@,
        Alert::ServerCpu { state, .. } => headline(state),
        Alert::ServerMem { state, .. } => headline(state),
        Alert::ServerDisk { state, .. } => headline(state),
        Alert::ServerTemp { state, .. } => headline(state),
        Alert::ContainerStateChange { .. } => alert_detail(alert),
        Alert::Empty => Seq::empty(),
    }
}

/// The one line an alert is summed up in; empty for no alert.
pub open spec fn alert_text(alert: Alert) -> Seq<char> {
    match alert {
        Alert::ServerDisk { name, region, state, path, percentage, .. } => headline(state)
            + " | "@ + server_text(name, region) + " disk usage at *"@ + percentage@
            + "%* | mount point: *"@ + path@ + "* 💿 🚨"@,
        Alert::ContainerStateChange { .. } => alert_detail(alert),
        Alert::Empty => Seq::empty(),
        _ => alert_header(alert) + " | "@ + alert_detail(alert),
    }
}

/// How much of something is in use.
pub open spec fn usage_text(used_gb: String, total_gb: String) -> Seq<char> {
    "using *"@ + used_gb@ + " GiB* / *"@ + total_gb@ + " GiB*"@
}

/// The sections that follow an alert's first section.
pub open spec fn alert_extras(alert: Alert) -> Seq<BlockView> {
    match alert {
        Alert::ServerCpu { top_procs, .. } => seq![
            BlockView::Section("*top cpu processes*"@ + top_procs_text(top_procs@)),
        ],
        Alert::ServerMem { used_gb, total_gb, top_procs, .. } => seq![
            BlockView::Section(usage_text(used_gb, total_gb)),
            BlockView::Section("*top cpu processes*"@ + top_procs_text(top_procs@)),
        ],
        Alert::ServerDisk { path, used_gb, total_gb, .. } => seq![
            BlockView::Section("mount point: "@ + path@ + " | "@ + usage_text(used_gb, total_gb)),
        ],
        Alert::ContainerStateChange { server, from, .. } => seq![
            BlockView::Section("server: "@ + server@ + "\nprevious: "@ + state_name(from)),
        ],
        _ => Seq::empty(),
    }
}

/// The blocks of an alert: its header, then its sections. A container's
/// change of state has its one line as header and no first section.
pub open spec fn alert_blocks(alert: Alert) -> Seq<BlockView> {
    match alert {
        Alert::Empty => Seq::empty(),
        Alert::ContainerStateChange { .. } => seq![BlockView::Header(alert_header(alert))]
            + alert_extras(alert),
        _ => seq![
            BlockView::Header(alert_header(alert)),
            BlockView::Section(alert_detail(alert)),
        ] + alert_extras(alert),
    }
}

/// Only the absence of an alert has an empty line: every alert says
/// something.
pub proof fn lemma_every_alert_has_text(alert: Alert)
    ensures
        alert_text(alert).len() == 0 <==> alert is Empty,
{
    reveal_strlit(" | ");
    reveal_strlit("📦 container *");
}

fn fmt_server(name: &String, region: &Option<String>) -> (text: String)
    ensures
        text@ == server_text(*name, *region),
{
    let mut text = String::from_str("*");
    text.append(name.as_str());
    text.append("*");
    text.append(fmt_region(region).as_str());
    text
}

fn fmt_headline(state: SeverityLevel) -> (text: String)
    ensures
        text@ == headline(state),
{
    let mut text = String::from_str(severity_label(state));
    text.append(" 🚨");
    text
}

fn fmt_usage(used_gb: &String, total_gb: &String) -> (text: String)
    ensures
        text@ == usage_text(*used_gb, *total_gb),
{
    let mut text = String::from_str("using *");
    text.append(used_gb.as_str());
    text.append(" GiB* / *");
    text.append(total_gb.as_str());
    text.append(" GiB*");
    text
}

fn fmt_top_section(top_procs: &Vec<SystemProcess>) -> (block: Block)
    ensures
        block@ == BlockView::Section("*top cpu processes*"@ + top_procs_text(top_procs@)),
{
    let mut text = String::from_str("*top cpu processes*");
    text.append(fmt_top_procs(top_procs).as_str());
    Block::Section(text)
}

/// What an alert says in its first section.
pub fn fmt_alert_detail(alert: &Alert) -> (text: String)
    ensures
        text@ == alert_detail(*alert),
{
    match alert {
        Alert::ServerUnreachable { name, region, .. } => {
            let mut text = fmt_server(name, region);
            text.append(" is *unreachable* ❌");
            text
        },
        Alert::ServerCpu { name, region, percentage, .. } => {
            let mut text = fmt_server(name, region);
            text.append(" cpu usage at *");
            text.append(percentage.as_str());
            text.append("%* 📈 🚨");
            text
        },
        Alert::ServerMem { name, region, percentage, .. } => {
            let mut text = fmt_server(name, region);
            text.append(" memory usage at *");
            text.append(percentage.as_str());
            text.append("%* 💾 🚨");
            text
        },
        Alert::ServerDisk { name, region, percentage, .. } => {
            let mut text = fmt_server(name, region);
            text.append(" disk usage at *");
            text.append(percentage.as_str());
            text.append("%* 💿 🚨");
            text
        },
        Alert::ServerTemp { name, region, temp, max, .. } => {
            let mut text = fmt_server(name, region);
            text.append(" temp at ");
            text.append(temp.as_str());
            text.append(" °C (max: ");
            text.append(max.as_str());
            text.append(" °C) 🌡️ 🚨");
            text
        },
        Alert::ContainerStateChange { name, to, .. } => {
            let mut text = String::from_str("📦 container *");
            text.append(name.as_str());
            text.append("* is now ");
            text.append(fmt_docker_container_state(to).as_str());
            text
        },
        Alert::Empty => String::new(),
    }
}

/// The header of an alert.
pub fn fmt_alert_header(alert: &Alert) -> (text: String)
    ensures
        text@ == alert_header(*alert),
{
    match alert {
        Alert::ServerUnreachable { .. } => String::from_str("CRITICAL 🚨"),
        Alert::ServerCpu { state, .. } => fmt_headline(*state),
        Alert::ServerMem { state, .. } => fmt_headline(*state),
        Alert::ServerDisk { state, .. } => fmt_headline(*state),
        Alert::ServerTemp { state, .. } => fmt_headline(*state),
        Alert::ContainerStateChange { .. } => fmt_alert_detail(alert),
        Alert::Empty => String::new(),
    }
}

/// The one line an alert is summed up in.
pub fn fmt_alert_text(alert: &Alert) -> (text: String)
    ensures
        text@ == alert_text(*alert),
{
    match alert {
        Alert::ServerDisk { name, region, state, path, percentage, .. } => {
            let mut text = fmt_headline(*state);
            text.append(" | ");
            text.append(fmt_server(name, region).as_str());
            text.append(" disk usage at *");
            text.append(percentage.as_str());
            text.append("%* | mount point: *");
            text.append(path.as_str());
            text.append("* 💿 🚨");
            assert(text@ =~= alert_text(*alert));
            text
        },
        Alert::ContainerStateChange { .. } => fmt_alert_detail(alert),
        Alert::Empty => String::new(),
        _ => {
            let mut text = fmt_alert_header(alert);
            text.append(" | ");
            text.append(fmt_alert_detail(alert).as_str());
            text
        },
    }
}

/// The blocks of an alert.
pub fn fmt_alert_blocks(alert: &Alert) -> (blocks: Vec<Block>)
    ensures
        block_views(blocks@) == alert_blocks(*alert),
{
    let mut blocks: Vec<Block> = Vec::new();
    match alert {
        Alert::Empty => {},
        Alert::ContainerStateChange { server, from, .. } => {
            blocks.push(Block::Header(fmt_alert_header(alert)));
            let mut text = String::from_str("server: ");
            text.append(server.as_str());
            text.append("\nprevious: ");
            text.append(container_state_name(*from));
            blocks.push(Block::Section(text));
        },
        _ => {
            blocks.push(Block::Header(fmt_alert_header(alert)));
            blocks.push(Block::Section(fmt_alert_detail(alert)));
            match alert {
                Alert::ServerCpu { top_procs, .. } => {
                    blocks.push(fmt_top_section(top_procs));
                },
                Alert::ServerMem { used_gb, total_gb, top_procs, .. } => {
                    blocks.push(Block::Section(fmt_usage(used_gb, total_gb)));
                    blocks.push(fmt_top_section(top_procs));
                },
                Alert::ServerDisk { path, used_gb, total_gb, .. } => {
                    let mut text = String::from_str("mount point: ");
                    text.append(path.as_str());
                    text.append(" | ");
                    text.append(fmt_usage(used_gb, total_gb).as_str());
                    blocks.push(Block::Section(text));
                },
                _ => {},
            }
        },
    }
    assert(block_views(blocks@) =~= alert_blocks(*alert));
    blocks
}

/// The message an alert is delivered as to a chat channel; none for no
/// alert.
pub fn send_slack_alert(alert: &Alert) -> (message: Option<SlackMessage>)
    ensures
        match message {
            Some(message) => alert_text(*alert).len() > 0 && message.text@ == alert_text(*alert)
                && block_views(message.blocks@) == alert_blocks(*alert),
            None => alert_text(*alert).len() == 0,
        },
{
    let text = fmt_alert_text(alert);
    if text.as_str().is_empty() {
        None
    } else {
        Some(SlackMessage { text, blocks: fmt_alert_blocks(alert) })
    }
}

/// Where the alerts of an alerter go.
#[derive(Clone, Debug, PartialEq, Eq)]
pub enum AlerterConfig {
    /// To a chat channel, as a message.
    Slack { url: String },
    /// To an endpoint of the user's own, as the alert itself.
    Custom { url: String },
}

/// What has to be sent for an alert.
#[derive(Clone, Debug, PartialEq, Eq)]
pub enum Delivery {
    /// Nothing.
    Nothing,
    /// This message, to the chat channel at `url`.
    Slack { url: String, message: SlackMessage },
    /// The alert itself, posted to `url`.
    Custom { url: String },
}

/// Decides what has to be sent for an alert: to a chat channel the
/// message, unless there is no alert; to a custom endpoint always the
/// alert itself.
pub fn send_alert(alerter: &AlerterConfig, alert: &Alert) -> (delivery: Delivery)
    ensures
        match (*alerter, delivery) {
            (AlerterConfig::Slack { url }, Delivery::Slack { url: to, message }) => to@ == url@
                && alert_text(*alert).len() > 0 && message.text@ == alert_text(*alert)
                && block_views(message.blocks@) == alert_blocks(*alert),
            (AlerterConfig::Slack { url }, Delivery::Nothing) => alert_text(*alert).len() == 0,
            (AlerterConfig::Custom { url }, Delivery::Custom { url: to }) => to@ == url@,
            _ => false,
        },
{
    match alerter {
        AlerterConfig::Slack { url } => match send_slack_alert(alert) {
            Some(message) => Delivery::Slack { url: url.clone(), message },
            None => Delivery::Nothing,
        },
        AlerterConfig::Custom { url } => Delivery::Custom { url: url.clone() },
    }
}

/// The reason phrase that goes with a status code, such as `Not Found`
/// with 404; absent for a code that has none.
pub uninterp spec fn reason_phrase(code: u16) -> Option<Seq<char>>;

/// Looks up the reason phrase of a status code with
/// `reqwest::StatusCode::canonical_reason`. Trusted: the phrase is the one
/// that function gives for the code, and a number that is no status code
/// (below 100 or above 999) has none.
#[verifier::external_body]
fn canonical_reason(code: u16) -> (reason: Option<&'static str>)
    ensures
        match reason {
            Some(phrase) => reason_phrase(code) == Some(phrase@),
            None => reason_phrase(code) is None,
        },
{
    match reqwest::StatusCode::from_u16(code) {
        Ok(status) => status.canonical_reason(),
        Err(_) => None,
    }
}

/// A status as it is written out: the code in base ten, a space, and the
/// reason phrase, or the words `<unknown status code>` without one.
pub open spec fn status_text(code: u16, reason: Option<Seq<char>>) -> Seq<char> {
    decimal(code as nat) + " "@ + match reason {
        Some(phrase) => phrase,
        None => "<unknown status code>"@,
    }
}

/// What a failed post to a custom endpoint is reported as.
pub open spec fn post_failure(status: Seq<char>, body: Seq<char>) -> Seq<char> {
    "post to alerter failed | "@ + status + " | "@ + body
}

/// The view of an optional phrase.
pub open spec fn phrase_view(reason: Option<&str>) -> Option<Seq<char>> {
    match reason {
        Some(phrase) => Some(phrase@),
        None => None,
    }
}

/// Judges the answer to an alert posted to a custom endpoint, given the
/// reason phrase of its status: status 200 is success, and any other is a
/// failure reported with the status and the body.
pub fn custom_alert_outcome(status_code: u16, reason: Option<&str>, body: &str) -> (outcome:
    Result<(), String>)
    ensures
        match outcome {
            Ok(()) => status_code == 200,
            Err(message) => status_code != 200 && message@ == post_failure(
                status_text(status_code, phrase_view(reason)),
                body@,
            ),
        },
{
    if status_code == 200 {
        return Ok(());
    }
    let mut status = format_unsigned(status_code as u64);
    status.append(" ");
    match reason {
        Some(phrase) => status.append(phrase),
        None => status.append("<unknown status code>"),
    }
    let mut message = String::from_str("post to alerter failed | ");
    message.append(status.as_str());
    message.append(" | ");
    message.append(body);
    Err(message)
}

/// Judges the answer to an alert posted to a custom endpoint: status 200
/// is success, and any other is a failure reported with the status and
/// the body.
pub fn send_custom_alert(status_code: u16, body: &str) -> (outcome: Result<(), String>)
    ensures
        match outcome {
            Ok(()) => status_code == 200,
            Err(message) => status_code != 200 && message@ == post_failure(
                status_text(status_code, reason_phrase(status_code)),
                body@,
            ),
        },
{
    custom_alert_outcome(status_code, canonical_reason(status_code), body)
}

} // verus!
