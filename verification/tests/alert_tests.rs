use stack_control::alert::{
    container_state_name, custom_alert_outcome, fmt_alert_blocks, fmt_alert_detail, fmt_alert_header, fmt_alert_text,
    fmt_docker_container_state, fmt_region, fmt_top_procs, send_alert, send_custom_alert,
    send_slack_alert, severity_label, Alert, AlerterConfig, Block, Delivery, DockerContainerState,
    ListAlerts, ListAlertsResponse, SeverityLevel, SlackMessage, SystemProcess,
};

fn s(text: &str) -> String {
    text.to_string()
}

fn process(name: &str, cpu: &str, mem: &str) -> SystemProcess {
    SystemProcess { name: s(name), cpu_perc: s(cpu), mem_gb: s(mem) }
}

fn unreachable() -> Alert {
    Alert::ServerUnreachable { id: s("1"), name: s("alpha"), region: Some(s("eu")) }
}

#[test]
fn region_in_brackets() {
    assert_eq!(fmt_region(&Some(s("us-east"))), " (us-east)");
    assert_eq!(fmt_region(&None), "");
    assert_eq!(fmt_region(&Some(String::new())), " ()");
}

#[test]
fn container_states_in_messages() {
    assert_eq!(fmt_docker_container_state(&DockerContainerState::Running), "Running ▶️");
    assert_eq!(fmt_docker_container_state(&DockerContainerState::Exited), "Exited 🛑");
    assert_eq!(fmt_docker_container_state(&DockerContainerState::Restarting), "Restarting 🔄");
    assert_eq!(fmt_docker_container_state(&DockerContainerState::NotDeployed), "Not Deployed");
    assert_eq!(fmt_docker_container_state(&DockerContainerState::Paused), "paused");
    assert_eq!(fmt_docker_container_state(&DockerContainerState::Dead), "dead");
    assert_eq!(fmt_docker_container_state(&DockerContainerState::Unknown), "unknown");
    assert_eq!(container_state_name(DockerContainerState::NotDeployed), "not_deployed");
    assert_eq!(container_state_name(DockerContainerState::Created), "created");
    assert_eq!(container_state_name(DockerContainerState::Removing), "removing");
}

#[test]
fn severity_words() {
    assert_eq!(severity_label(SeverityLevel::Normal), "OK");
    assert_eq!(severity_label(SeverityLevel::Warning), "WARNING");
    assert_eq!(severity_label(SeverityLevel::Critical), "CRITICAL");
}

#[test]
fn top_processes_are_numbered_from_one() {
    assert_eq!(fmt_top_procs(&vec![]), "");
    assert_eq!(
        fmt_top_procs(&vec![process("postgres", "51.2", "1.5"), process("node", "20.0", "0.3")]),
        "\n1. *postgres* | *51.2%* CPU | *1.5 GiB* MEM\n2. *node* | *20.0%* CPU | *0.3 GiB* MEM"
    );
    let many: Vec<SystemProcess> = (0..11).map(|_| process("p", "1.0", "0.1")).collect();
    assert!(fmt_top_procs(&many).ends_with("\n11. *p* | *1.0%* CPU | *0.1 GiB* MEM"));
}

#[test]
fn unreachable_server_message() {
    let message = send_slack_alert(&unreachable()).unwrap();
    assert_eq!(message.text, "CRITICAL 🚨 | *alpha* (eu) is *unreachable* ❌");
    assert_eq!(
        message.blocks,
        vec![
            Block::Header(s("CRITICAL 🚨")),
            Block::Section(s("*alpha* (eu) is *unreachable* ❌")),
        ]
    );
}

#[test]
fn cpu_message() {
    let alert = Alert::ServerCpu {
        id: s("1"),
        name: s("alpha"),
        region: None,
        state: SeverityLevel::Warning,
        percentage: s("85.3"),
        top_procs: vec![process("postgres", "51.2", "1.5")],
    };
    let message = send_slack_alert(&alert).unwrap();
    assert_eq!(message.text, "WARNING 🚨 | *alpha* cpu usage at *85.3%* 📈 🚨");
    assert_eq!(
        message.blocks,
        vec![
            Block::Header(s("WARNING 🚨")),
            Block::Section(s("*alpha* cpu usage at *85.3%* 📈 🚨")),
            Block::Section(s("*top cpu processes*\n1. *postgres* | *51.2%* CPU | *1.5 GiB* MEM")),
        ]
    );
}

#[test]
fn memory_message() {
    let alert = Alert::ServerMem {
        id: s("1"),
        name: s("alpha"),
        region: Some(s("eu")),
        state: SeverityLevel::Critical,
        percentage: s("96.0"),
        used_gb: s("15.4"),
        total_gb: s("16.0"),
        top_procs: vec![],
    };
    let message = send_slack_alert(&alert).unwrap();
    assert_eq!(message.text, "CRITICAL 🚨 | *alpha* (eu) memory usage at *96.0%* 💾 🚨");
    assert_eq!(
        message.blocks,
        vec![
            Block::Header(s("CRITICAL 🚨")),
            Block::Section(s("*alpha* (eu) memory usage at *96.0%* 💾 🚨")),
            Block::Section(s("using *15.4 GiB* / *16.0 GiB*")),
            Block::Section(s("*top cpu processes*")),
        ]
    );
}

#[test]
fn disk_message() {
    let alert = Alert::ServerDisk {
        id: s("1"),
        name: s("alpha"),
        region: None,
        state: SeverityLevel::Warning,
        path: s("/data"),
        percentage: s("80.0"),
        used_gb: s("400.0"),
        total_gb: s("500.0"),
    };
    let message = send_slack_alert(&alert).unwrap();
    assert_eq!(
        message.text,
        "WARNING 🚨 | *alpha* disk usage at *80.0%* | mount point: */data* 💿 🚨"
    );
    assert_eq!(
        message.blocks,
        vec![
            Block::Header(s("WARNING 🚨")),
            Block::Section(s("*alpha* disk usage at *80.0%* 💿 🚨")),
            Block::Section(s("mount point: /data | using *400.0 GiB* / *500.0 GiB*")),
        ]
    );
}

#[test]
fn temperature_message() {
    let alert = Alert::ServerTemp {
        id: s("1"),
        name: s("alpha"),
        region: None,
        state: SeverityLevel::Critical,
        temp: s("91"),
        max: s("85"),
    };
    let message = send_slack_alert(&alert).unwrap();
    assert_eq!(message.text, "CRITICAL 🚨 | *alpha* temp at 91 °C (max: 85 °C) 🌡️ 🚨");
    assert_eq!(
        message.blocks,
        vec![
            Block::Header(s("CRITICAL 🚨")),
            Block::Section(s("*alpha* temp at 91 °C (max: 85 °C) 🌡️ 🚨")),
        ]
    );
}

#[test]
fn container_message() {
    let alert = Alert::ContainerStateChange {
        id: s("1"),
        name: s("web"),
        server: s("alpha"),
        from: DockerContainerState::Running,
        to: DockerContainerState::Exited,
    };
    let message = send_slack_alert(&alert).unwrap();
    assert_eq!(message.text, "📦 container *web* is now Exited 🛑");
    assert_eq!(
        message.blocks,
        vec![
            Block::Header(s("📦 container *web* is now Exited 🛑")),
            Block::Section(s("server: alpha\nprevious: running")),
        ]
    );
}

#[test]
fn no_alert_no_message() {
    assert_eq!(send_slack_alert(&Alert::Empty), None);
    assert_eq!(fmt_alert_text(&Alert::Empty), "");
    assert_eq!(fmt_alert_header(&Alert::Empty), "");
    assert_eq!(fmt_alert_detail(&Alert::Empty), "");
    assert!(fmt_alert_blocks(&Alert::Empty).is_empty());
}

#[test]
fn delivery_by_kind_of_alerter() {
    let slack = AlerterConfig::Slack { url: s("https://hooks.example.com/x") };
    let custom = AlerterConfig::Custom { url: s("https://alerts.example.com") };
    assert_eq!(send_alert(&slack, &Alert::Empty), Delivery::Nothing);
    assert_eq!(
        send_alert(&slack, &unreachable()),
        Delivery::Slack {
            url: s("https://hooks.example.com/x"),
            message: SlackMessage {
                text: s("CRITICAL 🚨 | *alpha* (eu) is *unreachable* ❌"),
                blocks: vec![
                    Block::Header(s("CRITICAL 🚨")),
                    Block::Section(s("*alpha* (eu) is *unreachable* ❌")),
                ],
            },
        }
    );
    assert_eq!(
        send_alert(&custom, &Alert::Empty),
        Delivery::Custom { url: s("https://alerts.example.com") }
    );
    assert_eq!(
        send_alert(&custom, &unreachable()),
        Delivery::Custom { url: s("https://alerts.example.com") }
    );
}

#[test]
fn custom_endpoint_answers() {
    assert_eq!(send_custom_alert(200, "fine"), Ok(()));
    assert_eq!(
        send_custom_alert(500, "boom"),
        Err(s("post to alerter failed | 500 Internal Server Error | boom"))
    );
    assert_eq!(send_custom_alert(201, ""), Err(s("post to alerter failed | 201 Created | ")));
    assert_eq!(
        send_custom_alert(404, "no such hook"),
        Err(s("post to alerter failed | 404 Not Found | no such hook"))
    );
    assert_eq!(
        send_custom_alert(299, "x"),
        Err(s("post to alerter failed | 299 <unknown status code> | x"))
    );
}

#[test]
fn custom_endpoint_answers_agree_with_the_status_rendering() {
    for code in [100u16, 204, 301, 400, 401, 403, 418, 429, 502, 503, 599, 999] {
        let status = reqwest::StatusCode::from_u16(code).unwrap();
        assert_eq!(
            send_custom_alert(code, "body"),
            Err(format!("post to alerter failed | {status} | body"))
        );
    }
}

#[test]
fn custom_endpoint_outcome_from_a_given_phrase() {
    assert_eq!(custom_alert_outcome(200, Some("OK"), "fine"), Ok(()));
    assert_eq!(custom_alert_outcome(200, None, "fine"), Ok(()));
    assert_eq!(
        custom_alert_outcome(503, Some("Service Unavailable"), "later"),
        Err(s("post to alerter failed | 503 Service Unavailable | later"))
    );
    assert_eq!(
        custom_alert_outcome(0, None, ""),
        Err(s("post to alerter failed | 0 <unknown status code> | "))
    );
    assert_eq!(
        custom_alert_outcome(65535, None, "b"),
        Err(s("post to alerter failed | 65535 <unknown status code> | b"))
    );
}

#[test]
fn alert_pages() {
    assert_eq!(ListAlerts::default(), ListAlerts { page: 0, include_resolved: false });
    let page = ListAlertsResponse { alerts: vec![Alert::Empty, unreachable()], next_page: Some(1) };
    assert_eq!(page.alerts.len(), 2);
    assert_eq!(page.next_page, Some(1));
    assert_eq!(page.clone(), page);
}
