use localgpt::chat::{agent_config, ChatAction, ChatEvent, ChatFlow, ChatRequest};
use localgpt::cli::{log_level, may_write_default_config, output_format, OutputFormat};
use localgpt::config::{AgentSettings, Config, MemoryConfig, ServerConfig};
use localgpt::error::AppError;
use localgpt::memory::{memory_search_inner, memory_stats_inner, search_limit, status_response, MemoryStats};
use localgpt::server::{decimal_string, health_check, Server};

fn config_with_model(model: &str) -> Config {
    Config {
        server: ServerConfig { bind: "127.0.0.1".to_string(), port: 31327 },
        agent: AgentSettings { default_model: model.to_string(), context_window: 128000, reserve_tokens: 8000 },
        memory: MemoryConfig { workspace: "/tmp/ws".to_string() },
    }
}

#[derive(Debug, Clone, PartialEq)]
struct Record {
    file: String,
    line_start: i32,
    line_end: i32,
    content: String,
    score: f64,
}

fn records(n: usize) -> Vec<Record> {
    (0..n)
        .map(|i| Record {
            file: format!("MEMORY{}.md", i),
            line_start: i as i32 * 10 + 1,
            line_end: i as i32 * 10 + 5,
            content: format!("foo {}", i),
            score: 1.0 - i as f64 * 0.1,
        })
        .collect()
}

/// Drives a flow with a backend that answers with `answer` and reports the
/// model it was built with; returns the reply and the text submitted.
fn drive(config: &Config, request: ChatRequest, answer: &str) -> (Result<(String, String), (u16, String)>, String) {
    let (mut flow, first) = ChatFlow::start(config, request);
    assert!(matches!(first, ChatAction::OpenStore(_)));
    let built = flow.step(ChatEvent::Done);
    let model = match built {
        ChatAction::BuildAgent(a) => a.model,
        _ => panic!("expected the backend to be built"),
    };
    assert!(matches!(flow.step(ChatEvent::Done), ChatAction::StartSession));
    let submitted = match flow.step(ChatEvent::Done) {
        ChatAction::RunTurn(m) => m,
        _ => panic!("expected a turn"),
    };
    let event = ChatEvent::Answered { response: format!("{} <- {}", answer, submitted), model };
    assert!(flow.accepts(&event));
    let reply = match flow.step(event) {
        ChatAction::Reply(Ok(r)) => Ok((r.response, r.model)),
        ChatAction::Reply(Err(e)) => Err((e.status_code(), e.message())),
        _ => panic!("expected a reply"),
    };
    (reply, submitted)
}

#[test]
fn health_is_ok() {
    assert_eq!(health_check(), "OK");
}

#[test]
fn chat_uses_default_model() {
    let config = config_with_model("m1");
    let (reply, submitted) = drive(&config, ChatRequest { message: "hi".to_string(), model: None }, "hello");
    assert_eq!(submitted, "hi");
    assert_eq!(reply, Ok(("hello <- hi".to_string(), "m1".to_string())));
}

#[test]
fn chat_uses_requested_model() {
    let config = config_with_model("m1");
    let request = ChatRequest { message: "hi".to_string(), model: Some("m2".to_string()) };
    let (reply, _) = drive(&config, request, "hello");
    assert_eq!(reply.unwrap().1, "m2");
}

#[test]
fn agent_config_takes_budgets_from_config() {
    let config = config_with_model("m1");
    let a = agent_config(&config, &None);
    assert_eq!(a.model, "m1");
    assert_eq!(a.context_window, 128000);
    assert_eq!(a.reserve_tokens, 8000);
}

#[test]
fn interleaved_chats_are_isolated() {
    let config = config_with_model("m1");
    let mut flows: Vec<ChatFlow> = Vec::new();
    for i in 0..4 {
        let request = ChatRequest { message: format!("tag-{}", i), model: None };
        flows.push(ChatFlow::start(&config, request).0);
    }
    for _ in 0..2 {
        for f in flows.iter_mut() {
            f.step(ChatEvent::Done);
        }
    }
    let mut submitted = Vec::new();
    for f in flows.iter_mut().rev() {
        match f.step(ChatEvent::Done) {
            ChatAction::RunTurn(m) => submitted.push(m),
            _ => panic!("expected a turn"),
        }
    }
    submitted.reverse();
    for (i, f) in flows.iter_mut().enumerate() {
        assert_eq!(submitted[i], format!("tag-{}", i));
        let event = ChatEvent::Answered { response: format!("ack {}", submitted[i]), model: "m1".to_string() };
        match f.step(event) {
            ChatAction::Reply(Ok(r)) => assert_eq!(r.response, format!("ack tag-{}", i)),
            _ => panic!("expected a reply"),
        }
    }
}

#[test]
fn chat_failure_is_generic_error() {
    let config = config_with_model("m1");
    let (mut flow, _) = ChatFlow::start(&config, ChatRequest { message: "hi".to_string(), model: None });
    flow.step(ChatEvent::Done);
    match flow.step(ChatEvent::Failed("backend refused".to_string())) {
        ChatAction::Reply(Err(e)) => {
            assert_eq!(e.status_code(), 500);
            assert_eq!(e.message(), "backend refused");
        },
        _ => panic!("expected a failure reply"),
    }
    assert!(!flow.accepts(&ChatEvent::Done));
}

#[test]
fn answer_is_not_accepted_before_turn() {
    let config = config_with_model("m1");
    let (flow, _) = ChatFlow::start(&config, ChatRequest { message: "hi".to_string(), model: None });
    let early = ChatEvent::Answered { response: "x".to_string(), model: "m1".to_string() };
    assert!(!flow.accepts(&early));
    assert!(flow.accepts(&ChatEvent::Done));
}

#[test]
fn search_cuts_to_limit_in_store_order() {
    let found = records(5);
    let r = memory_search_inner("foo", Some(2), Ok(found.clone())).ok().unwrap();
    assert_eq!(r.results.len(), 2);
    assert_eq!(r.results, found[..2].to_vec());
    assert!(r.results[0].score > r.results[1].score);
    assert_eq!(r.query, "foo");
}

#[test]
fn search_default_limit_is_ten() {
    assert_eq!(search_limit(None), 10);
    assert_eq!(search_limit(Some(3)), 3);
    let r = memory_search_inner("foo", None, Ok(records(12))).ok().unwrap();
    assert_eq!(r.results.len(), 10);
    let r = memory_search_inner("foo", None, Ok(records(4))).ok().unwrap();
    assert_eq!(r.results, records(4));
}

#[test]
fn search_zero_limit_is_empty() {
    let r = memory_search_inner("q", Some(0), Ok(records(3))).ok().unwrap();
    assert!(r.results.is_empty());
    assert_eq!(r.query, "q");
}

#[test]
fn search_failure_is_generic_error() {
    let r = memory_search_inner::<Record>("foo", Some(2), Err("no index".to_string()));
    match r {
        Err(e) => {
            assert_eq!(e.status_code(), 500);
            assert_eq!(e.message(), "no index");
        },
        Ok(_) => panic!("expected a failure"),
    }
}

#[test]
fn stats_store_unreachable() {
    let r = memory_stats_inner(Err("unable to open database file".to_string()));
    match r {
        Err(AppError::Failed(m)) => assert!(m.contains("unable to open database file")),
        _ => panic!("expected a generic failure"),
    }
}

#[test]
fn stats_pass_counts_through() {
    let stats = MemoryStats { workspace: "/tmp/ws".to_string(), total_files: 3, total_chunks: 42, index_size_kb: 96 };
    let r = memory_stats_inner(Ok(stats)).ok().unwrap();
    assert_eq!(r.workspace, "/tmp/ws");
    assert_eq!(r.total_files, 3);
    assert_eq!(r.total_chunks, 42);
    assert_eq!(r.index_size_kb, 96);
}

#[test]
fn status_reports_zero_chunks_without_store() {
    let config = config_with_model("m1");
    let r = status_response("0.1.0", &config, None);
    assert_eq!(r.version, "0.1.0");
    assert_eq!(r.model, "m1");
    assert_eq!(r.memory_chunks, 0);
    assert_eq!(status_response("0.1.0", &config, Some(17)).memory_chunks, 17);
}

#[test]
fn rejected_body_is_client_error() {
    let rejected = AppError::Rejected("missing field `message`".to_string());
    let failed = AppError::Failed("backend".to_string());
    assert_eq!(rejected.status_code(), 400);
    assert_eq!(failed.status_code(), 500);
    assert_eq!(rejected.message(), "missing field `message`");
}

#[test]
fn server_new_keeps_config_and_bind_address() {
    let config = config_with_model("m1");
    let server = Server::new(&config).ok().unwrap();
    assert_eq!(server.config.agent.default_model, "m1");
    assert_eq!(server.bind_address(), "127.0.0.1:31327");
}

#[test]
fn decimal_edges() {
    assert_eq!(decimal_string(0), "0");
    assert_eq!(decimal_string(9), "9");
    assert_eq!(decimal_string(10), "10");
    assert_eq!(decimal_string(65535), "65535");
    assert_eq!(decimal_string(u64::MAX), "18446744073709551615");
}

#[test]
fn config_show_format() {
    assert!(output_format("json") == OutputFormat::Json);
    assert!(output_format("toml") == OutputFormat::Toml);
    assert!(output_format("JSON") == OutputFormat::Toml);
    assert!(output_format("") == OutputFormat::Toml);
}

#[test]
fn config_init_refuses_existing_file() {
    assert!(!may_write_default_config(true, false));
    assert!(may_write_default_config(true, true));
    assert!(may_write_default_config(false, false));
}

#[test]
fn verbose_selects_debug() {
    assert_eq!(log_level(true), "debug");
    assert_eq!(log_level(false), "info");
}

#[test]
fn empty_message_is_forwarded() {
    let config = config_with_model("m1");
    let (reply, submitted) = drive(&config, ChatRequest { message: String::new(), model: None }, "?");
    assert_eq!(submitted, "");
    assert_eq!(reply, Ok(("? <- ".to_string(), "m1".to_string())));
}

#[test]
fn chat_store_failure_is_reported() {
    let config = config_with_model("m1");
    let (mut flow, _) = ChatFlow::start(&config, ChatRequest { message: "hi".to_string(), model: None });
    match flow.step(ChatEvent::Failed("unable to open database file".to_string())) {
        ChatAction::Reply(Err(AppError::Failed(m))) => assert_eq!(m, "unable to open database file"),
        _ => panic!("expected a failure reply"),
    }
}
