use brindexer_logic::abi::decode_answer;
use brindexer_logic::job::{default_retries, default_retry_interval, default_schedule};
use brindexer_logic::rpc::decode_hex_text;
use brindexer_logic::{
    assemble_token_data, build_calls, decode_batch, decode_call_result, default_batch_size,
    default_jobs, get_all_token_data_from_answers, latest_block_number, token_update,
    token_updates, CallOutput, ContractURIData, ContractUriLookup, IndexersSettings,
    InternalError, JobAction, JobOutcome, JobRun, RawTokenAnswers, RetryInterval, RpcClientError, RunPhase,
    TokenAnswers, TokenData, TokenDataJob, TokenIndexerSettings, TokenMethod,
};

fn word(value: u64) -> Vec<u8> {
    let mut w = vec![0u8; 32];
    w[24..].copy_from_slice(&value.to_be_bytes());
    w
}

/// The ABI encoding of a single `string` return value.
fn encode_string(s: &str) -> Vec<u8> {
    let mut out = word(32);
    out.extend(word(s.len() as u64));
    let mut data = s.as_bytes().to_vec();
    while data.len() % 32 != 0 {
        data.push(0);
    }
    out.extend(data);
    out
}

fn hex(bytes: &[u8]) -> String {
    let mut s = String::from("0x");
    for b in bytes {
        s.push_str(&format!("{:02x}", b));
    }
    s
}

fn empty_data() -> TokenData {
    TokenData {
        name: None,
        symbol: None,
        decimals: None,
        total_supply: None,
        contract_uri: None,
        skip_metadata: false,
    }
}

fn complete_data() -> TokenData {
    TokenData {
        name: Some("Tether USD".to_string()),
        symbol: Some("USDT".to_string()),
        decimals: Some(6),
        total_supply: Some(word(1_000_000)),
        contract_uri: Some("https://example.com/usdt.json".to_string()),
        skip_metadata: false,
    }
}

// ---------------------------------------------------------------- settings

#[test]
fn default_batch_size_is_fifty() {
    assert_eq!(default_batch_size(), 50);
}

#[test]
fn default_settings_have_zero_batch() {
    assert_eq!(TokenIndexerSettings::default().batch, 0);
    assert_eq!(IndexersSettings::default().tokens, TokenIndexerSettings { batch: 0 });
}

// ---------------------------------------------------------------- jobs

#[test]
fn job_defaults() {
    assert_eq!(default_retries(), 3);
    assert_eq!(default_retry_interval(), RetryInterval { secs: 5, nanos: 0 });
    assert_eq!(default_schedule(), "every 10 seconds");
}

#[test]
fn token_data_job_describes_itself() {
    let job = TokenDataJob::new(7);
    assert_eq!(job.batch_size(), 7);
    assert_eq!(job.name(), "token_data_job");
    assert_eq!(job.schedule(), "every 10 seconds");
    assert_eq!(job.retries(), 3);
    assert_eq!(job.retry_interval(), RetryInterval { secs: 5, nanos: 0 });
}

#[test]
fn default_jobs_are_one_token_job_of_fifty() {
    let jobs = default_jobs();
    assert_eq!(jobs.len(), 1);
    assert_eq!(jobs[0].batch_size(), 50);
}

#[test]
fn run_with_no_retries_executes_nothing() {
    let (run, action) = JobRun::begin(0, RetryInterval { secs: 5, nanos: 0 });
    assert_eq!(action, JobAction::Stop);
    assert!(run.is_done());
}

#[test]
fn success_ends_run_without_pause() {
    let (run, action) = JobRun::begin(3, RetryInterval { secs: 5, nanos: 0 });
    assert_eq!(action, JobAction::Execute { attempt: 0 });
    let (run, action) = run.step(JobOutcome::Succeeded);
    assert_eq!(action, JobAction::Stop);
    assert!(run.is_done());
    let (_, action) = run.step(JobOutcome::Failed);
    assert_eq!(action, JobAction::Stop);
}

#[test]
fn failing_run_makes_every_attempt_then_stops() {
    let five = RetryInterval { secs: 5, nanos: 0 };
    let job = TokenDataJob::new(50);
    let (mut run, first) = job.begin_run();
    let mut actions = vec![first];
    for _ in 0..5 {
        let (next, action) = run.step(JobOutcome::Failed);
        run = next;
        actions.push(action);
    }
    assert_eq!(
        actions,
        vec![
            JobAction::Execute { attempt: 0 },
            JobAction::SleepThenExecute { pause: five, attempt: 1 },
            JobAction::SleepThenExecute { pause: five, attempt: 2 },
            JobAction::SleepThenStop { pause: five },
            JobAction::Stop,
            JobAction::Stop,
        ]
    );
    assert_eq!(run.phase, RunPhase::Done);
}

#[test]
fn pause_keeps_fractions_of_a_second() {
    let pause = RetryInterval { secs: 1, nanos: 500_000_000 };
    let (run, _) = JobRun::begin(2, pause);
    let (_, action) = run.step(JobOutcome::Failed);
    assert_eq!(action, JobAction::SleepThenExecute { pause, attempt: 1 });
}

#[test]
fn attempts_are_bounded_whatever_the_outcomes() {
    let outcomes = [JobOutcome::Failed, JobOutcome::Failed, JobOutcome::Succeeded, JobOutcome::Failed];
    let (mut run, first) = JobRun::begin(4, RetryInterval { secs: 1, nanos: 0 });
    let mut executed = Vec::new();
    if let JobAction::Execute { attempt } = first {
        executed.push(attempt);
    }
    for o in outcomes {
        let (next, action) = run.step(o);
        run = next;
        match action {
            JobAction::Execute { attempt } | JobAction::SleepThenExecute { attempt, .. } => {
                executed.push(attempt)
            }
            _ => {}
        }
    }
    assert_eq!(executed, vec![0, 1, 2]);
    assert!(run.is_done());
}

// ---------------------------------------------------------------- abi

#[test]
fn selectors_are_the_known_ones() {
    assert_eq!(TokenMethod::Name.selector(), vec![0x06, 0xfd, 0xde, 0x03]);
    assert_eq!(TokenMethod::Symbol.selector(), vec![0x95, 0xd8, 0x9b, 0x41]);
    assert_eq!(TokenMethod::Decimals.selector(), vec![0x31, 0x3c, 0xe5, 0x67]);
    assert_eq!(TokenMethod::TotalSupply.selector(), vec![0x18, 0x16, 0x0d, 0xdd]);
    assert_eq!(TokenMethod::ContractUri.calldata(), vec![0xe8, 0xa3, 0xd4, 0x85]);
}

#[test]
fn signatures() {
    assert_eq!(TokenMethod::Name.signature(), "name()");
    assert_eq!(TokenMethod::ContractUri.signature(), "contractURI()");
}

#[test]
fn decodes_string_answer() {
    let data = encode_string("RareTron.io");
    assert_eq!(
        decode_answer(TokenMethod::Name, &data),
        Some(CallOutput::Text("RareTron.io".to_string()))
    );
}

#[test]
fn decodes_uint8_answer() {
    assert_eq!(decode_answer(TokenMethod::Decimals, &word(18)), Some(CallOutput::Uint8(18)));
}

#[test]
fn rejects_uint8_out_of_range() {
    assert_eq!(decode_answer(TokenMethod::Decimals, &word(300)), None);
}

#[test]
fn decodes_uint256_answer() {
    let w = word(1_000_000);
    assert_eq!(decode_answer(TokenMethod::TotalSupply, &w), Some(CallOutput::Uint256(w.clone())));
}

#[test]
fn rejects_trailing_bytes() {
    let mut w = word(7);
    w.push(0);
    assert_eq!(decode_answer(TokenMethod::TotalSupply, &w), None);
    assert_eq!(decode_answer(TokenMethod::Decimals, &w), None);
    let mut s = encode_string("abc");
    s.extend(word(0));
    assert_eq!(decode_answer(TokenMethod::Name, &s), None);
}

#[test]
fn rejects_string_answer_with_huge_length() {
    let mut data = word(32);
    data.extend(word(u64::MAX));
    assert_eq!(decode_answer(TokenMethod::Name, &data), None);
    assert_eq!(
        decode_call_result(TokenMethod::Symbol, &Ok(hex(&data))),
        Err(RpcClientError::Internal(InternalError::AbiDecode))
    );
}

#[test]
fn rejects_string_answer_with_wrong_offset() {
    let mut data = encode_string("abc");
    data[31] = 64;
    assert_eq!(decode_answer(TokenMethod::Name, &data), None);
    let mut long = encode_string("abc");
    long[63] = 33;
    assert_eq!(decode_answer(TokenMethod::ContractUri, &long), None);
}

#[test]
fn decodes_empty_string_answer() {
    assert_eq!(
        decode_answer(TokenMethod::Name, &encode_string("")),
        Some(CallOutput::Text(String::new()))
    );
}

#[test]
fn rejects_short_answer() {
    assert_eq!(decode_answer(TokenMethod::Symbol, &[0u8; 3]), None);
    assert_eq!(decode_answer(TokenMethod::TotalSupply, &[]), None);
}

// ---------------------------------------------------------------- rpc

#[test]
fn hex_text_with_and_without_prefix() {
    assert_eq!(decode_hex_text("0x1213"), Some(vec![0x12, 0x13]));
    assert_eq!(decode_hex_text("1213"), Some(vec![0x12, 0x13]));
    assert_eq!(decode_hex_text("0xAbCd"), Some(vec![0xab, 0xcd]));
    assert_eq!(decode_hex_text("0x"), Some(vec![]));
}

#[test]
fn hex_text_rejected() {
    assert_eq!(decode_hex_text("0x123"), None);
    assert_eq!(decode_hex_text("0xzz"), None);
    assert_eq!(decode_hex_text("0X12"), None);
}

#[test]
fn call_result_rpc_error() {
    assert_eq!(
        decode_call_result(TokenMethod::Name, &Err("execution reverted".to_string())),
        Err(RpcClientError::Rpc("execution reverted".to_string()))
    );
}

#[test]
fn call_result_hex_error() {
    assert_eq!(
        decode_call_result(TokenMethod::Name, &Ok("0xnothex".to_string())),
        Err(RpcClientError::Internal(InternalError::HexDecode))
    );
}

#[test]
fn call_result_abi_error() {
    assert_eq!(
        decode_call_result(TokenMethod::Name, &Ok("0x".to_string())),
        Err(RpcClientError::Internal(InternalError::AbiDecode))
    );
}

#[test]
fn call_result_ok() {
    let raw = hex(&encode_string("VanityTrx.org"));
    assert_eq!(
        decode_call_result(TokenMethod::Symbol, &Ok(raw)),
        Ok(CallOutput::Text("VanityTrx.org".to_string()))
    );
}

#[test]
fn batch_keeps_order_and_length() {
    let raw = vec![Ok(hex(&word(6))), Err("timeout".to_string()), Ok(hex(&word(18)))];
    let decoded = decode_batch(TokenMethod::Decimals, &raw);
    assert_eq!(
        decoded,
        vec![
            Ok(CallOutput::Uint8(6)),
            Err(RpcClientError::Rpc("timeout".to_string())),
            Ok(CallOutput::Uint8(18)),
        ]
    );
}

#[test]
fn calls_go_to_each_contract() {
    let a = vec![0x11u8; 20];
    let b = vec![0x22u8; 20];
    let calls = build_calls(TokenMethod::Name, &vec![a.clone(), b.clone()]);
    assert_eq!(calls.len(), 2);
    assert_eq!(calls[0].to, a);
    assert_eq!(calls[1].to, b);
    assert_eq!(calls[0].data, vec![0x06, 0xfd, 0xde, 0x03]);
    assert_eq!(calls[1].data, vec![0x06, 0xfd, 0xde, 0x03]);
}

// ---------------------------------------------------------------- token data

#[test]
fn emptiness_and_completeness() {
    assert!(empty_data().is_empty());
    assert!(!empty_data().is_complete());
    assert!(complete_data().is_complete());
    assert!(!complete_data().is_empty());
    let partial = TokenData { decimals: Some(0), ..empty_data() };
    assert!(!partial.is_empty());
    assert!(!partial.is_complete());
    let only_uri = TokenData { contract_uri: Some("x".to_string()), ..empty_data() };
    assert!(only_uri.is_empty());
}

#[test]
fn complete_data_needs_no_lookup() {
    assert_eq!(complete_data().contract_uri_lookup(), ContractUriLookup::Skip);
}

#[test]
fn no_uri_no_lookup() {
    assert_eq!(empty_data().contract_uri_lookup(), ContractUriLookup::Skip);
}

#[test]
fn url_is_fetched() {
    let data = TokenData {
        contract_uri: Some("https://example.com/meta.json".to_string()),
        ..empty_data()
    };
    assert_eq!(
        data.contract_uri_lookup(),
        ContractUriLookup::Fetch("https://example.com/meta.json".to_string())
    );
}

#[test]
fn non_url_is_parsed_inline() {
    let doc = "{\"name\":\"Inline\",\"symbol\":\"INL\"}".to_string();
    let data = TokenData { contract_uri: Some(doc.clone()), ..empty_data() };
    assert_eq!(data.contract_uri_lookup(), ContractUriLookup::ParseInline(doc));
}

#[test]
fn lookup_given_url_answer() {
    let data = TokenData { contract_uri: Some("u".to_string()), ..empty_data() };
    assert_eq!(data.choose_contract_uri_lookup(true), ContractUriLookup::Fetch("u".to_string()));
    assert_eq!(
        data.choose_contract_uri_lookup(false),
        ContractUriLookup::ParseInline("u".to_string())
    );
}

#[test]
fn document_fills_gaps_only() {
    let data = TokenData { symbol: Some("OLD".to_string()), ..empty_data() };
    let doc = ContractURIData { name: "Named".to_string(), symbol: Some("NEW".to_string()) };
    let merged = data.populate_with_contract_uri(Some(doc));
    assert_eq!(merged.name, Some("Named".to_string()));
    assert_eq!(merged.symbol, Some("OLD".to_string()));
    assert_eq!(merged.decimals, None);
}

#[test]
fn document_without_symbol_leaves_symbol_missing() {
    let doc = ContractURIData { name: "Named".to_string(), symbol: None };
    let merged = empty_data().populate_with_contract_uri(Some(doc.clone()));
    assert_eq!(merged.symbol, None);
    assert_eq!(merged.clone().populate_with_contract_uri(Some(doc)), merged);
}

#[test]
fn no_document_changes_nothing() {
    let data = TokenData { name: Some("A".to_string()), ..empty_data() };
    assert_eq!(data.clone().populate_with_contract_uri(None), data);
    assert_eq!(
        complete_data().populate_with_contract_uri(Some(ContractURIData {
            name: "Other".to_string(),
            symbol: Some("OTH".to_string())
        })),
        complete_data()
    );
}

// ---------------------------------------------------------------- assembly

#[test]
fn assembles_tokens_with_their_answers() {
    let answers = TokenAnswers {
        names: vec![Ok(CallOutput::Text("A".to_string())), Err(RpcClientError::Rpc("x".to_string()))],
        symbols: vec![Ok(CallOutput::Text("AA".to_string())), Err(RpcClientError::Internal(InternalError::AbiDecode))],
        decimals: vec![Ok(CallOutput::Uint8(18)), Err(RpcClientError::Internal(InternalError::HexDecode))],
        total_supplies: vec![Ok(CallOutput::Uint256(word(5))), Err(RpcClientError::Rpc("y".to_string()))],
        contract_uris: vec![Err(RpcClientError::Rpc("z".to_string())), Ok(CallOutput::Text("ipfs://q".to_string()))],
    };
    let out = assemble_token_data(vec!["t1", "t2"], &answers);
    assert_eq!(out.len(), 2);
    assert_eq!(out[0].0, "t1");
    assert_eq!(
        out[0].1,
        TokenData {
            name: Some("A".to_string()),
            symbol: Some("AA".to_string()),
            decimals: Some(18),
            total_supply: Some(word(5)),
            contract_uri: None,
            skip_metadata: false,
        }
    );
    assert_eq!(out[1].0, "t2");
    assert_eq!(
        out[1].1,
        TokenData {
            contract_uri: Some("ipfs://q".to_string()),
            skip_metadata: true,
            ..empty_data()
        }
    );
}

#[test]
fn assembly_stops_at_shortest_batch() {
    let answers = TokenAnswers {
        names: vec![Ok(CallOutput::Text("A".to_string())); 3],
        symbols: vec![Ok(CallOutput::Text("A".to_string())); 3],
        decimals: vec![Ok(CallOutput::Uint8(1)); 2],
        total_supplies: vec![Ok(CallOutput::Uint256(word(1))); 3],
        contract_uris: vec![Ok(CallOutput::Text("u".to_string())); 3],
    };
    assert_eq!(assemble_token_data(vec![1, 2, 3], &answers).len(), 2);
    assert_eq!(assemble_token_data(vec![1], &answers).len(), 1);
}

#[test]
fn assembly_from_raw_answers() {
    let raw = RawTokenAnswers {
        names: vec![Ok(hex(&encode_string("RareTron.io")))],
        symbols: vec![Ok("0xzz".to_string())],
        decimals: vec![Ok(hex(&word(6)))],
        total_supplies: vec![Ok(hex(&word(1000)))],
        contract_uris: vec![Err("execution reverted".to_string())],
    };
    let out = get_all_token_data_from_answers(vec![()], &raw);
    assert_eq!(out.len(), 1);
    assert_eq!(out[0].1.name, Some("RareTron.io".to_string()));
    assert_eq!(out[0].1.symbol, None);
    assert_eq!(out[0].1.decimals, Some(6));
    assert_eq!(out[0].1.total_supply, Some(word(1000)));
    assert_eq!(out[0].1.contract_uri, None);
    assert!(!out[0].1.skip_metadata);
}

#[test]
fn token_with_no_answers_is_skipped() {
    let failed = || vec![Err("down".to_string())];
    let raw = RawTokenAnswers {
        names: failed(),
        symbols: failed(),
        decimals: failed(),
        total_supplies: failed(),
        contract_uris: vec![Ok(hex(&encode_string("https://x")))],
    };
    let out = get_all_token_data_from_answers(vec![9], &raw);
    assert!(out[0].1.skip_metadata);
    assert_eq!(out[0].1.contract_uri, Some("https://x".to_string()));
}

// ---------------------------------------------------------------- database rows

#[test]
fn update_of_known_metadata_catalogues() {
    let u = token_update(complete_data());
    assert_eq!(u.cataloged, Some(true));
    assert_eq!(u.skip_metadata, Some(false));
    assert_eq!(u.name, Some("Tether USD".to_string()));
    assert_eq!(u.decimals, Some(6));
}

#[test]
fn update_of_empty_metadata_skips() {
    let u = token_update(TokenData { skip_metadata: true, ..empty_data() });
    assert_eq!(u.cataloged, Some(false));
    assert_eq!(u.skip_metadata, Some(true));
}

#[test]
fn updated_tokens_are_not_picked_again() {
    // A token is picked up again only with cataloged = false and skip_metadata = false.
    let raw = RawTokenAnswers {
        names: vec![Err("e".to_string()), Ok(hex(&encode_string("N")))],
        symbols: vec![Err("e".to_string()), Err("e".to_string())],
        decimals: vec![Err("e".to_string()), Err("e".to_string())],
        total_supplies: vec![Err("e".to_string()), Err("e".to_string())],
        contract_uris: vec![Err("e".to_string()), Err("e".to_string())],
    };
    let updates = token_updates(get_all_token_data_from_answers(vec!["a", "b"], &raw));
    for (_, u) in &updates {
        assert!(!(u.cataloged == Some(false) && u.skip_metadata == Some(false)));
    }
    assert_eq!(updates[0].1.cataloged, Some(false));
    assert_eq!(updates[1].1.cataloged, Some(true));
}

#[test]
fn latest_block_defaults_to_zero() {
    assert_eq!(latest_block_number(None), 0);
    assert_eq!(latest_block_number(Some(19_000_000)), 19_000_000);
}
