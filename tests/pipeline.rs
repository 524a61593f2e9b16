use doc_chat::chat::{flatten_history, history_prompt, system_message};
use doc_chat::ingest::{ingest_extracted, new_record, prepare_upload, validate_top_k};
use doc_chat::models::{lookup_int, lookup_text, records_from_results};
use doc_chat::text::{find_last, same_text};
use doc_chat::{
    ChatMessage, ChatStrategy, Config, ConversationTurn, DocumentInfo, ErrorKind, LoadError,
    MetaEntry, MetaValue, Passage, Role, Settings, TurnEvent, TurnState,
};

fn sample_info() -> DocumentInfo {
    DocumentInfo {
        id: "0b6f2a1e-8d7c-4f3b-9a51-2c4d6e8f0a1b".to_string(),
        name: "notes.txt".to_string(),
        kind: "txt".to_string(),
        timestamp: "2024-05-01T10:00:00Z".to_string(),
        size: 28,
    }
}

#[test]
fn upload_notes_txt_makes_record() {
    let content = b"Project X kickoff on Monday.";
    let prepared = prepare_upload("notes.txt", content).unwrap();
    assert_eq!(prepared.info.kind, "txt");
    assert_eq!(prepared.info.size, 28);
    assert_eq!(prepared.info.name, "notes.txt");
    assert!(!prepared.info.id.is_empty());
    assert_eq!(prepared.info.id.len(), 36);
    assert_eq!(prepared.info.timestamp.len(), 20);
    assert!(prepared.info.timestamp.ends_with('Z'));
    assert_eq!(prepared.text, "Project X kickoff on Monday.");
}

#[test]
fn upload_ids_are_fresh() {
    let a = prepare_upload("a.txt", b"alpha").unwrap();
    let b = prepare_upload("a.txt", b"alpha").unwrap();
    assert_ne!(a.info.id, b.info.id);
}

#[test]
fn upload_csv_is_unsupported() {
    assert_eq!(
        prepare_upload("data.csv", b"a,b\n1,2\n").err(),
        Some(ErrorKind::UnsupportedFormat)
    );
}

#[test]
fn upload_empty_txt_is_empty_document() {
    assert_eq!(prepare_upload("empty.txt", b"").err(), Some(ErrorKind::EmptyDocument));
}

#[test]
fn upload_blank_txt_is_empty_document() {
    assert_eq!(
        prepare_upload("blank.txt", b"  \n\t  \n").err(),
        Some(ErrorKind::EmptyDocument)
    );
}

#[test]
fn upload_bad_docx_is_parse_failure() {
    assert_eq!(
        prepare_upload("broken.docx", b"not a zip").err(),
        Some(ErrorKind::ParseFailure)
    );
}

#[test]
fn ingest_trims_text() {
    assert_eq!(ingest_extracted(Ok("  hello world \n".to_string())), Ok("hello world".to_string()));
    assert_eq!(ingest_extracted(Ok(String::new())), Err(ErrorKind::EmptyDocument));
    assert_eq!(
        ingest_extracted(Err(LoadError::UnsupportedFormat)),
        Err(ErrorKind::UnsupportedFormat)
    );
    assert_eq!(ingest_extracted(Err(LoadError::ParseFailure)), Err(ErrorKind::ParseFailure));
}

#[test]
fn new_record_fields() {
    let r = new_record("Slides.DOCX", 1024);
    assert_eq!(r.kind, "docx");
    assert_eq!(r.name, "Slides.DOCX");
    assert_eq!(r.size, 1024);
    assert_eq!(r.id.len(), 36);
}

#[test]
fn top_k_must_be_positive() {
    assert_eq!(validate_top_k(0), Err(ErrorKind::InvalidArgument));
    assert_eq!(validate_top_k(1), Ok(1));
    assert_eq!(validate_top_k(usize::MAX), Ok(usize::MAX));
}

#[test]
fn metadata_round_trip() {
    let info = sample_info();
    let m = info.metadata();
    assert_eq!(m.len(), 5);
    let back = DocumentInfo::from_metadata(&m);
    assert_eq!(back.id, info.id);
    assert_eq!(back.name, info.name);
    assert_eq!(back.kind, info.kind);
    assert_eq!(back.timestamp, info.timestamp);
    assert_eq!(back.size, info.size);
}

#[test]
fn metadata_missing_fields_default() {
    let m = vec![
        MetaEntry { key: "id".to_string(), value: MetaValue::Text("x1".to_string()) },
        MetaEntry { key: "size".to_string(), value: MetaValue::Text("12".to_string()) },
        MetaEntry { key: "kind".to_string(), value: MetaValue::Int(3) },
    ];
    let r = DocumentInfo::from_metadata(&m);
    assert_eq!(r.id, "x1");
    assert_eq!(r.name, "");
    assert_eq!(r.kind, "");
    assert_eq!(r.timestamp, "");
    assert_eq!(r.size, 0);
}

#[test]
fn metadata_lookup_takes_first_entry() {
    let m = vec![
        MetaEntry { key: "size".to_string(), value: MetaValue::Int(7) },
        MetaEntry { key: "size".to_string(), value: MetaValue::Int(9) },
        MetaEntry { key: "name".to_string(), value: MetaValue::Other },
    ];
    assert_eq!(lookup_int(&m, "size"), 7);
    assert_eq!(lookup_text(&m, "name"), "");
    assert_eq!(lookup_int(&vec![], "size"), 0);
}

#[test]
fn history_is_flattened_in_order() {
    let h = vec![
        ConversationTurn { role: Role::Human, content: "Hi".to_string() },
        ConversationTurn { role: Role::Ai, content: "Hello!".to_string() },
    ];
    assert_eq!(flatten_history(&h), "human: Hi\nai: Hello!\n");
    assert_eq!(flatten_history(&vec![]), "");
}

#[test]
fn history_prompt_holds_history_and_message() {
    let h = vec![ConversationTurn { role: Role::Human, content: "Hi".to_string() }];
    let p = history_prompt(&h, "When is the kickoff?");
    assert_eq!(
        p,
        "\nThe following is a friendly conversation between a human and an AI. The AI is talkative and provides lots of specific details from its history.\n\nCurrent conversation:\nhuman: Hi\n\nhuman: When is the kickoff?\nai:\n"
    );
}

#[test]
fn role_names() {
    assert_eq!(Role::System.name(), "system");
    assert_eq!(Role::Human.name(), "human");
    assert_eq!(Role::Ai.name(), "ai");
    assert_eq!(Role::Tool.name(), "tool");
    assert_eq!(system_message(), "You are a helpful assistant");
}

#[test]
fn turn_with_rephrasing() {
    let s = ChatStrategy::HistoryAware;
    let mut t = TurnState::Received;
    t = t.step(s, TurnEvent::Succeeded);
    assert_eq!(t, TurnState::Retrieving);
    t = t.step(s, TurnEvent::Succeeded);
    assert_eq!(t, TurnState::Rephrasing);
    t = t.step(s, TurnEvent::Succeeded);
    assert_eq!(t, TurnState::Generating);
    t = t.step(s, TurnEvent::Succeeded);
    assert_eq!(t, TurnState::Completed);
    assert_eq!(t.step(s, TurnEvent::Failed), TurnState::Completed);
}

#[test]
fn turn_without_rephrasing_and_failures() {
    let s = ChatStrategy::SingleTurn;
    assert_eq!(TurnState::Retrieving.step(s, TurnEvent::Succeeded), TurnState::Generating);
    assert_eq!(
        TurnState::Retrieving.step(s, TurnEvent::Failed),
        TurnState::Failed(ErrorKind::RetrievalFailure)
    );
    assert_eq!(
        TurnState::Generating.step(s, TurnEvent::Failed),
        TurnState::Failed(ErrorKind::GenerationFailure)
    );
    let done = TurnState::Failed(ErrorKind::RetrievalFailure);
    assert_eq!(done.step(s, TurnEvent::Succeeded), done);
}

#[test]
fn chat_message_carries_sources() {
    let m = ChatMessage {
        content: "The kickoff is on Monday.".to_string(),
        role: Role::Ai,
        sources: vec![Passage {
            text: "Project X kickoff on Monday.".to_string(),
            metadata: sample_info().metadata(),
        }],
        timestamp: "2024-05-01T10:00:05Z".to_string(),
    };
    assert_eq!(m.sources[0].text, "Project X kickoff on Monday.");
    assert_eq!(m.sources[0].record().name, "notes.txt");
    assert_eq!(m.sources[0].record().size, 28);
}

#[test]
fn config_defaults() {
    let c = Config::from_settings(Settings {
        app_name: None,
        app_version: None,
        log_level: None,
        chunk_size: None,
        chunk_overlap: Some("not a number".to_string()),
        database_url: Some("postgres://localhost/db".to_string()),
        openai_api_key: None,
        openai_api_url: None,
        openai_chat_model: None,
        openai_embedding_model: None,
    });
    assert_eq!(c.app_name, "");
    assert_eq!(c.app_version, "1.0.0");
    assert_eq!(c.log_level, "INFO");
    assert_eq!(c.chunk_size, 5000);
    assert_eq!(c.chunk_overlap, 200);
    assert_eq!(c.database_url, "postgres://localhost/db");
}

#[test]
fn config_reads_counts() {
    let c = Config::from_settings(Settings {
        app_name: Some("docs".to_string()),
        app_version: Some("2.1.0".to_string()),
        log_level: Some("DEBUG".to_string()),
        chunk_size: Some("1200".to_string()),
        chunk_overlap: Some("50".to_string()),
        database_url: None,
        openai_api_key: None,
        openai_api_url: None,
        openai_chat_model: Some("gpt".to_string()),
        openai_embedding_model: None,
    });
    assert_eq!(c.app_name, "docs");
    assert_eq!(c.app_version, "2.1.0");
    assert_eq!(c.log_level, "DEBUG");
    assert_eq!(c.chunk_size, 1200);
    assert_eq!(c.chunk_overlap, 50);
    assert_eq!(c.openai_chat_model, "gpt");
}

#[test]
fn error_messages() {
    assert_eq!(
        ErrorKind::EmptyDocument.message(),
        "No text could be extracted from the document"
    );
    assert_eq!(ErrorKind::InvalidArgument.message(), "Invalid argument");
}

#[test]
fn text_helpers() {
    assert_eq!(find_last("a.b.c", '.', 5), Some(3));
    assert_eq!(find_last("abc", '.', 3), None);
    assert!(same_text("pdf", "pdf"));
    assert!(!same_text("pdf", "txt"));
    assert!(!same_text("pd", "pdf"));
}

#[test]
fn search_results_become_records() {
    let first = sample_info().metadata();
    let second = vec![MetaEntry { key: "name".to_string(), value: MetaValue::Text("b.pdf".to_string()) }];
    let records = records_from_results(&vec![first, second]);
    assert_eq!(records.len(), 2);
    assert_eq!(records[0].id, sample_info().id);
    assert_eq!(records[0].size, 28);
    assert_eq!(records[1].name, "b.pdf");
    assert_eq!(records[1].id, "");
    assert!(records_from_results(&vec![]).is_empty());
}

#[test]
fn deletion_outcome() {
    use_removed_any();
}

fn use_removed_any() {
    assert!(!doc_chat::ingest::removed_any(0));
    assert!(doc_chat::ingest::removed_any(1));
    assert!(doc_chat::ingest::removed_any(u64::MAX));
}

#[test]
fn all_error_messages() {
    assert_eq!(ErrorKind::UnsupportedFormat.message(), "Unsupported file type");
    assert_eq!(ErrorKind::ParseFailure.message(), "Failed to load document");
    assert_eq!(ErrorKind::StoreUnavailable.message(), "Failed to load vector store");
    assert_eq!(ErrorKind::EmbeddingFailure.message(), "Failed to embed text");
    assert_eq!(ErrorKind::RetrievalFailure.message(), "Failed to retrieve relevant documents");
    assert_eq!(ErrorKind::GenerationFailure.message(), "Failed to generate chat message");
}

#[test]
fn config_count_parsing_edges() {
    let with = |v: &str| {
        Config::from_settings(Settings {
            app_name: None,
            app_version: None,
            log_level: None,
            chunk_size: Some(v.to_string()),
            chunk_overlap: None,
            database_url: None,
            openai_api_key: None,
            openai_api_url: None,
            openai_chat_model: None,
            openai_embedding_model: None,
        })
        .chunk_size
    };
    assert_eq!(with("+42"), 42);
    assert_eq!(with("007"), 7);
    assert_eq!(with("-1"), 5000);
    assert_eq!(with(""), 5000);
    assert_eq!(with("+"), 5000);
    assert_eq!(with(" 12"), 5000);
    assert_eq!(with("99999999999999999999999"), 5000);
}

#[test]
fn blank_unicode_text_is_empty_document() {
    assert_eq!(
        ingest_extracted(Ok("\u{a0}\u{3000}\t\n".to_string())),
        Err(ErrorKind::EmptyDocument)
    );
    assert_eq!(
        ingest_extracted(Ok("\u{2003}x\u{85}".to_string())),
        Ok("x".to_string())
    );
}

#[test]
fn upload_timestamp_is_utc_seconds() {
    let p = prepare_upload("a.txt", b"alpha").unwrap();
    let t = p.info.timestamp.as_bytes();
    assert_eq!(t.len(), 20);
    assert_eq!(t[4], b'-');
    assert_eq!(t[10], b'T');
    assert_eq!(t[19], b'Z');
}
