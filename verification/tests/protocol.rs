use rtwo::ollama::{
    del_model, finish_delete, format_duration_secs, gen, gen_request, get_models, model_available,
    pull_model, serialize_context, verbose_info, Details, GenSession, GenStep, GenerateResponse,
    HttpMethod, Model, ModelResponse, PullResponse, PullSession, PullStep,
};
use rtwo::{ClientError, Config};

fn conf() -> Config {
    Config {
        host: "localhost".to_string(),
        port: 11434,
        model: "llama3".to_string(),
        verbose: false,
        color: false,
        save: false,
    }
}

fn gen_rec() -> GenerateResponse {
    GenerateResponse {
        error: None,
        model: None,
        created_at: None,
        response: None,
        done: None,
        context: None,
        total_duration: None,
        load_duration: None,
        prompt_eval_count: None,
        prompt_eval_duration: None,
        eval_count: None,
        eval_duration: None,
    }
}

fn pull_rec() -> PullResponse {
    PullResponse { error: None, status: None, digest: None, total: None, completed: None }
}

#[test]
fn streaming_generate_accumulates_and_returns_context() {
    let mut s = GenSession::new();
    let first = GenerateResponse {
        response: Some("Hel".to_string()),
        done: Some(false),
        ..gen_rec()
    };
    assert!(matches!(s.step(&first), GenStep::Continue));
    let last = GenerateResponse {
        response: Some("lo".to_string()),
        done: Some(true),
        context: Some(vec![1, 2, 3]),
        ..gen_rec()
    };
    match s.step(&last) {
        GenStep::Done(ctx, text) => {
            assert_eq!(text, "Hello");
            assert_eq!(ctx, "[1,2,3]");
        }
        _ => panic!("terminal fragment must complete the exchange"),
    }
}

#[test]
fn streaming_generate_fails_on_server_error() {
    let mut s = GenSession::new();
    let rec = GenerateResponse { error: Some("boom".to_string()), ..gen_rec() };
    match s.step(&rec) {
        GenStep::Failed(ClientError::Server(m)) => assert_eq!(m, "boom"),
        _ => panic!("server error must fail the turn"),
    }
}

#[test]
fn streaming_generate_requires_context_on_terminal_record() {
    let mut s = GenSession::new();
    let rec = GenerateResponse {
        response: Some("hi".to_string()),
        done: Some(true),
        ..gen_rec()
    };
    assert!(matches!(s.step(&rec), GenStep::Failed(ClientError::MissingContext)));
}

#[test]
fn batch_generate_returns_context_and_response() {
    let rec = GenerateResponse {
        response: Some("Hello".to_string()),
        done: Some(true),
        context: Some(vec![1, 2, 3]),
        ..gen_rec()
    };
    let (ctx, resp) = gen(rec).unwrap();
    assert_eq!(ctx, "[1,2,3]");
    assert_eq!(resp, "Hello");
}

#[test]
fn batch_generate_fails_without_response() {
    let rec = GenerateResponse { context: Some(vec![1]), ..gen_rec() };
    assert_eq!(gen(rec), Err(ClientError::MissingResponse));
}

#[test]
fn batch_generate_fails_without_context() {
    let rec = GenerateResponse { response: Some("x".to_string()), ..gen_rec() };
    assert_eq!(gen(rec), Err(ClientError::MissingContext));
}

#[test]
fn batch_generate_forwards_server_error() {
    let rec = GenerateResponse {
        error: Some("model failure".to_string()),
        response: Some("x".to_string()),
        ..gen_rec()
    };
    assert_eq!(gen(rec), Err(ClientError::Server("model failure".to_string())));
}

#[test]
fn generate_request_encodes_payload() {
    let req = gen_request(&"hi".to_string(), &None, &conf(), false);
    assert!(matches!(req.method, HttpMethod::Post));
    assert_eq!(req.url, "http://localhost:11434/api/generate");
    assert_eq!(
        req.body.as_deref(),
        Some("{\"model\":\"llama3\",\"prompt\":\"hi\",\"stream\":false}")
    );
}

#[test]
fn generate_request_threads_context() {
    let req = gen_request(&"hi".to_string(), &Some("[7,8]".to_string()), &conf(), true);
    assert_eq!(
        req.body.as_deref(),
        Some("{\"model\":\"llama3\",\"prompt\":\"hi\",\"stream\":true,\"context\":[7,8]}")
    );
}

#[test]
fn pull_in_catalog_is_success_without_request() {
    let catalog = vec!["llama3".to_string(), "mistral".to_string()];
    assert!(pull_model(&"llama3".to_string(), &catalog, &conf()).is_none());
}

#[test]
fn pull_missing_model_issues_request() {
    let catalog = vec!["mistral".to_string()];
    let req = pull_model(&"llama3".to_string(), &catalog, &conf()).expect("a pull is needed");
    assert!(matches!(req.method, HttpMethod::Post));
    assert_eq!(req.url, "http://localhost:11434/api/pull");
    assert_eq!(req.body.as_deref(), Some("{\"name\":\"llama3\"}"));
}

#[test]
fn delete_missing_model_fails_without_request() {
    let catalog = vec!["mistral".to_string()];
    let r = del_model(&"llama3".to_string(), &catalog, &conf());
    assert_eq!(r.err(), Some(ClientError::ModelNotFound));
}

#[test]
fn delete_known_model_issues_request() {
    let catalog = vec!["llama3".to_string()];
    let req = del_model(&"llama3".to_string(), &catalog, &conf()).unwrap();
    assert!(matches!(req.method, HttpMethod::Delete));
    assert_eq!(req.url, "http://localhost:11434/api/delete");
    assert_eq!(req.body.as_deref(), Some("{\"name\":\"llama3\"}"));
}

#[test]
fn delete_needs_ok_status() {
    assert!(finish_delete(200).is_ok());
    assert_eq!(finish_delete(404), Err(ClientError::DeleteRejected));
    assert_eq!(finish_delete(500), Err(ClientError::DeleteRejected));
}

#[test]
fn pull_session_counts_layers_once_per_status_label() {
    let mut s = PullSession::new();
    let a = PullResponse {
        status: Some("downloading sha256-aaa".to_string()),
        digest: Some("sha256-aaa".to_string()),
        ..pull_rec()
    };
    assert!(matches!(s.step(&a), PullStep::NewLayer(1)));
    assert!(matches!(s.step(&a), PullStep::Progress));
    let b = PullResponse {
        status: Some("downloading sha256-bbb".to_string()),
        digest: Some("sha256-bbb".to_string()),
        ..pull_rec()
    };
    assert!(matches!(s.step(&b), PullStep::NewLayer(2)));
    assert_eq!(s.layers(), 2);
}

#[test]
fn pull_session_completes_on_success_status() {
    let mut s = PullSession::new();
    let done = PullResponse { status: Some("success".to_string()), ..pull_rec() };
    assert!(matches!(s.step(&done), PullStep::Done));
}

#[test]
fn pull_session_fails_on_server_error() {
    let mut s = PullSession::new();
    let bad = PullResponse { error: Some("no such model".to_string()), ..pull_rec() };
    match s.step(&bad) {
        PullStep::Failed(ClientError::Server(m)) => assert_eq!(m, "no such model"),
        _ => panic!("error record must fail the pull"),
    }
}

#[test]
fn pull_session_treats_plain_status_as_progress() {
    let mut s = PullSession::new();
    let rec = PullResponse { status: Some("verifying sha256 digest".to_string()), ..pull_rec() };
    assert!(matches!(s.step(&rec), PullStep::Progress));
    assert_eq!(s.layers(), 0);
}

#[test]
fn catalog_names_come_out_in_order() {
    let resp = ModelResponse {
        models: vec![
            Model {
                name: "llama3:latest".to_string(),
                modified_at: "2024-05-01T00:00:00Z".to_string(),
                size: 4_000_000_000,
                digest: "sha256-aaa".to_string(),
                details: Details {
                    format: "gguf".to_string(),
                    family: "llama".to_string(),
                    families: None,
                    parameter_size: "8B".to_string(),
                    quantization_level: "Q4_0".to_string(),
                },
            },
            Model {
                name: "mistral".to_string(),
                modified_at: "2024-05-02T00:00:00Z".to_string(),
                size: 3_000_000_000,
                digest: "sha256-bbb".to_string(),
                details: Details {
                    format: "gguf".to_string(),
                    family: "mistral".to_string(),
                    families: Some(vec!["mistral".to_string()]),
                    parameter_size: "7B".to_string(),
                    quantization_level: "Q4_0".to_string(),
                },
            },
        ],
    };
    assert_eq!(get_models(resp), vec!["llama3:latest".to_string(), "mistral".to_string()]);
}

#[test]
fn configured_model_matches_tagged_catalog_entries() {
    let catalog = vec!["llama3:latest".to_string(), "mistral:7b".to_string()];
    assert!(model_available(&catalog, "llama3"));
    assert!(model_available(&catalog, "llama3:latest"));
    assert!(model_available(&catalog, "mistral"));
    assert!(!model_available(&catalog, "llama2"));
    assert!(!model_available(&vec![], "llama3"));
}

#[test]
fn context_serializes_with_commas_and_signs() {
    assert_eq!(serialize_context(&vec![1, 2, 3]), "[1,2,3]");
    assert_eq!(serialize_context(&vec![-1, 0, 42]), "[-1,0,42]");
    assert_eq!(serialize_context(&vec![]), "[]");
    assert_eq!(serialize_context(&vec![i64::MIN]), "[-9223372036854775808]");
}

#[test]
fn durations_render_as_seconds_with_millisecond_precision() {
    assert_eq!(format_duration_secs(27_174_000_000), "27.174");
    assert_eq!(format_duration_secs(1_000_000), "0.001");
    assert_eq!(format_duration_secs(999), "0.000");
    assert_eq!(format_duration_secs(1_050_000_000), "1.050");
}

#[test]
fn verbose_block_lists_model_tokens_and_time() {
    let rec = GenerateResponse {
        model: Some("llama3:70b".to_string()),
        prompt_eval_count: Some(23),
        eval_count: Some(216),
        total_duration: Some(27_174_000_000),
        ..gen_rec()
    };
    assert_eq!(
        verbose_info(&rec),
        "* Model: llama3:70b\n* Tokens in prompt: 23\n* Tokens in response: 216\n* Time taken: 27.174s"
    );
}

#[test]
fn verbose_block_defaults_missing_fields() {
    assert_eq!(
        verbose_info(&gen_rec()),
        "* Model: Unknown\n* Tokens in prompt: 0\n* Tokens in response: 0\n* Time taken: 0.000s"
    );
}
