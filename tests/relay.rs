use solana_relayer_adapter::{
    astra_regions, blockrazor_regions, bloxroute_regions, helius_regions, nextblock_regions,
    zero_slot_regions, AstraRegionsType, BRazorRegionsType, BxRouteRegionsType, HeliusRegionsType,
    NextBlockRegionsType, ZSlotRegionsType,
    aggregate, classify_body, classify_response, compose_tip_instruction, dispatch_in_order,
    format_elapsed, format_elapsed_parts, jito_endpoint, jito_regions, nozomi_regions,
    plan_submissions, region_or_default, select_best, AttemptOutcome, ConfigError, Dispatcher,
    JitoRegionsType, NozomiRegionsType, ServiceHealth, SubmissionTask, SubmitError, TipPolicy,
    Tips, COOLDOWN_MS,
};
use solana_sdk::pubkey::Pubkey;
use std::time::Duration;

fn names(list: &[&str]) -> Vec<String> {
    list.iter().map(|s| s.to_string()).collect()
}

fn fresh(n: usize) -> Vec<ServiceHealth> {
    (0..n).map(|_| ServiceHealth::new()).collect()
}

#[test]
fn select_best_picks_smallest_rtt() {
    let rtts = vec![Some(40), None, Some(12), Some(30)];
    assert_eq!(select_best(&rtts), Some(2));
}

#[test]
fn select_best_all_failed_is_none() {
    assert_eq!(select_best(&vec![None, None, None]), None);
    assert_eq!(select_best(&vec![]), None);
}

#[test]
fn select_best_tie_keeps_first() {
    assert_eq!(select_best(&vec![None, Some(7), Some(7), Some(9)]), Some(1));
}

#[test]
fn region_fallback_is_first() {
    assert_eq!(region_or_default(None), 0);
    assert_eq!(region_or_default(Some(3)), 3);
}

#[test]
fn breaker_opens_after_three_failures() {
    let mut h = ServiceHealth::new();
    assert!(h.should_attempt_request(0));
    h.record_failure(100);
    h.record_failure(200);
    assert!(h.should_attempt_request(250));
    h.record_failure(300);
    assert!(h.circuit_open);
    assert_eq!(h.consecutive_failures, 3);
    assert!(!h.should_attempt_request(301));
}

#[test]
fn breaker_success_resets() {
    let mut h = ServiceHealth::new();
    h.record_failure(1);
    h.record_failure(2);
    h.record_failure(3);
    h.record_success();
    assert_eq!(h.consecutive_failures, 0);
    assert!(!h.circuit_open);
    assert!(h.should_attempt_request(4));
}

#[test]
fn breaker_cooldown_boundary() {
    let mut h = ServiceHealth::new();
    for t in [1000, 1000, 1000] {
        h.record_failure(t);
    }
    assert!(!h.should_attempt_request(1000 + COOLDOWN_MS - 1));
    assert!(h.circuit_open);
    assert!(h.should_attempt_request(1000 + COOLDOWN_MS));
    assert!(!h.circuit_open);
    assert_eq!(h.consecutive_failures, 0);
}

#[test]
fn breaker_clock_behind_open_time_stays_open() {
    let mut h = ServiceHealth::new();
    for t in [5000, 5000, 5000] {
        h.record_failure(t);
    }
    assert!(!h.should_attempt_request(10));
}

#[test]
fn plan_covers_every_provider_and_attempt() {
    let plan = plan_submissions(3, 2);
    let expected: Vec<SubmissionTask> = (0..3)
        .flat_map(|p| (0..2).map(move |a| SubmissionTask { provider: p, attempt: a }))
        .collect();
    assert_eq!(plan, expected);
    assert!(plan_submissions(0, 5).is_empty());
    assert!(plan_submissions(4, 0).is_empty());
}

#[test]
fn all_succeed_report() {
    let list = names(&["Jito", "Nozomi", "ZeroSlot"]);
    let mut d = Dispatcher::new(list.clone(), fresh(3), 2);
    assert_eq!(d.task_count(), 6);
    for k in 0..d.task_count() {
        assert!(d.begin(k, 10));
        d.complete(k, Ok(()), 50_000, 10);
    }
    let (results, health) = d.finish();
    assert_eq!(results.len(), 6);
    assert_eq!(health.len(), 3);
    let report = aggregate(&list, &results, 120_000);
    assert_eq!(report.total_submissions, 6);
    assert_eq!(report.success_count, 6);
    assert_eq!(report.average_latency_us(), 50_000);
    assert_eq!(report.wall_time_us, 120_000);
    assert_eq!(report.services.len(), 3);
    for (p, s) in report.services.iter().enumerate() {
        assert_eq!(s.service_name, list[p]);
        assert_eq!(s.successes, 2);
        assert_eq!(s.attempts, 2);
        assert_eq!(s.average_latency_us(), 50_000);
    }
}

#[test]
fn html_provider_results_are_html_kind() {
    let list = names(&["Jito", "BlockRazor"]);
    let mut d = Dispatcher::new(list.clone(), fresh(2), 2);
    for k in 0..d.task_count() {
        let task = d.task(k);
        assert!(d.begin(k, 0));
        let outcome = if task.provider == 1 {
            classify_response("<!DOCTYPE html><html><body>502 Bad Gateway</body></html>", false)
        } else {
            classify_response("{\"jsonrpc\":\"2.0\",\"id\":1,\"result\":\"sig\"}", true)
        };
        d.complete(k, outcome, 1_000, 0);
    }
    let (results, _) = d.finish();
    for r in &results {
        if r.provider == 1 {
            assert!(!r.success);
            assert_eq!(r.error, Some(SubmitError::HtmlPage));
        } else {
            assert!(r.success);
            assert_eq!(r.error, None);
        }
    }
}

#[test]
fn fourth_attempt_rejected_by_breaker() {
    let list = names(&["Nozomi"]);
    let mut d = Dispatcher::new(list.clone(), fresh(1), 4);
    for k in 0..3 {
        assert!(d.begin(k, 100));
        d.complete(k, Err(SubmitError::Transport("connection refused".to_string())), 10, 100);
    }
    assert!(!d.begin(3, 101));
    let (results, health) = d.finish();
    assert_eq!(results.len(), 4);
    assert_eq!(results[3].error, Some(SubmitError::CircuitOpen));
    assert_eq!(results[3].latency_us, 0);
    assert_eq!(results[3].attempt, 3);
    assert!(health[0].circuit_open);
    let report = aggregate(&list, &results, 0);
    assert_eq!(report.skipped_count, 1);
    assert_eq!(report.services[0].skipped, 1);
    assert_eq!(report.services[0].attempts, 4);
    assert_eq!(report.success_count, 0);
}

#[test]
fn dispatch_in_order_counts_every_task() {
    let list = names(&["A", "B"]);
    let outcomes: Vec<AttemptOutcome> = (0..6)
        .map(|k| AttemptOutcome {
            result: if k < 3 { Err(SubmitError::HtmlPage) } else { Ok(()) },
            latency_us: 7,
            at_ms: 0,
        })
        .collect();
    let (results, health) = dispatch_in_order(list.clone(), fresh(2), 3, outcomes);
    assert_eq!(results.len(), 6);
    assert!(health[0].circuit_open);
    for (k, r) in results.iter().enumerate() {
        assert_eq!(r.provider, k / 3);
        assert_eq!(r.attempt as usize, k % 3);
        assert_eq!(r.service_name, list[k / 3]);
    }
    let report = aggregate(&list, &results, 0);
    assert_eq!(report.success_count, 3);
    assert_eq!(report.services[0].successes, 0);
    assert_eq!(report.services[0].average_latency_us(), 0);
    assert_eq!(report.services[1].successes, 3);
    assert_eq!(report.skipped_count, 0);
}

#[test]
fn dispatch_in_order_skips_after_breaker_opens() {
    let list = names(&["A"]);
    let outcomes: Vec<AttemptOutcome> = (0..5)
        .map(|_| AttemptOutcome {
            result: Err(SubmitError::Transport("timeout".to_string())),
            latency_us: 3,
            at_ms: 1_000,
        })
        .collect();
    let (results, _) = dispatch_in_order(list.clone(), fresh(1), 5, outcomes);
    assert_eq!(results.len(), 5);
    for r in &results[..3] {
        assert_eq!(r.error, Some(SubmitError::Transport("timeout".to_string())));
        assert_eq!(r.latency_us, 3);
    }
    for r in &results[3..] {
        assert_eq!(r.error, Some(SubmitError::CircuitOpen));
        assert_eq!(r.latency_us, 0);
    }
    let report = aggregate(&list, &results, 0);
    assert_eq!(report.skipped_count, 2);
}

#[test]
fn unfinished_task_reported_not_completed() {
    let mut d = Dispatcher::new(names(&["A"]), fresh(1), 2);
    assert!(d.is_pending(0));
    assert!(d.begin(0, 0));
    assert!(d.is_pending(0));
    d.complete(0, Ok(()), 5, 0);
    assert!(!d.is_pending(0));
    assert!(d.is_pending(1));
    assert!(!d.is_pending(2));
    let (results, _) = d.finish();
    assert_eq!(results.len(), 2);
    assert_eq!(results[1].error, Some(SubmitError::NotCompleted));
    assert_eq!(results[1].service_name, "A");
}

#[test]
fn aggregate_ignores_latency_of_failures() {
    let list = names(&["A"]);
    let mut d = Dispatcher::new(list.clone(), fresh(1), 2);
    d.complete(0, Ok(()), 30, 0);
    d.complete(1, Err(SubmitError::Unparseable("x".to_string())), 1_000_000, 0);
    let (results, _) = d.finish();
    let report = aggregate(&list, &results, 0);
    assert_eq!(report.success_latency_us, 30);
    assert_eq!(report.services[0].average_latency_us(), 30);
    assert_eq!(report.services[0].attempts, 2);
}

#[test]
fn classify_accepted() {
    assert_eq!(classify_response("{\"result\":\"abc\"}", true), Ok(()));
    assert_eq!(classify_response("{\"result\":\"abc\",\"error\":null}", true), Ok(()));
}

#[test]
fn classify_html_after_whitespace() {
    assert_eq!(classify_response("  \n<html>oops</html>", false), Err(SubmitError::HtmlPage));
}

#[test]
fn classify_auth_rejection() {
    let body = "{\"error\":\"UNAUTHORIZED\"}";
    assert_eq!(classify_response(body, false), Err(SubmitError::AuthRejected(body.to_string())));
    let body = "api key not authorised";
    assert_eq!(classify_response(body, false), Err(SubmitError::AuthRejected(body.to_string())));
}

#[test]
fn classify_error_object() {
    let body = "{\"error\":{\"code\":-32602,\"message\":\"invalid params\"}}";
    assert_eq!(classify_response(body, true), Err(SubmitError::ErrorObject(body.to_string())));
    assert_eq!(classify_response(body, false), Err(SubmitError::ErrorObject(body.to_string())));
}

#[test]
fn classify_unparseable() {
    let body = "service temporarily down";
    assert_eq!(classify_response(body, false), Err(SubmitError::Unparseable(body.to_string())));
    assert_eq!(classify_response("[1,2]", false), Err(SubmitError::Unparseable("[1,2]".to_string())));
}

#[test]
fn classify_body_uses_given_error_member() {
    assert_eq!(classify_body("{}", true, false), Ok(()));
    assert_eq!(classify_body("{}", true, true), Err(SubmitError::ErrorObject("{}".to_string())));
}

fn transfer_data(lamports: u64) -> Vec<u8> {
    let mut d = vec![2u8, 0, 0, 0];
    d.extend_from_slice(&lamports.to_le_bytes());
    d
}

fn policy() -> (TipPolicy, Vec<Pubkey>) {
    let keys = vec![Pubkey::new_unique(), Pubkey::new_unique()];
    let accounts: Vec<String> = keys.iter().map(|k| k.to_string()).collect();
    (TipPolicy::from_accounts(1_000_000, &accounts).unwrap(), keys)
}

fn tips(lamports: u64, idx: u8) -> Tips {
    Tips {
        tip_lamports: lamports,
        tip_addr_idx: idx,
        cu: None,
        priority_fee_micro_lamport: None,
        payer: Pubkey::new_unique(),
        pure_ix: vec![],
    }
}

#[test]
fn tip_below_minimum_raised() {
    let (pol, keys) = policy();
    let t = tips(10, 1);
    let payer = t.payer;
    let ixs = compose_tip_instruction(&pol, t).unwrap();
    assert_eq!(ixs.len(), 1);
    assert_eq!(ixs[0].data, transfer_data(1_000_000));
    assert_eq!(ixs[0].accounts[0].pubkey, payer);
    assert!(ixs[0].accounts[0].is_signer);
    assert_eq!(ixs[0].accounts[1].pubkey, keys[1]);
    assert!(!ixs[0].accounts[1].is_signer);
    assert_eq!(ixs[0].program_id, solana_sdk::system_program::id());
}

#[test]
fn tip_above_minimum_exact() {
    let (pol, _) = policy();
    let ixs = compose_tip_instruction(&pol, tips(2_500_000, 0)).unwrap();
    assert_eq!(ixs[0].data, transfer_data(2_500_000));
    let ixs = compose_tip_instruction(&pol, tips(1_000_000, 0)).unwrap();
    assert_eq!(ixs[0].data, transfer_data(1_000_000));
}

#[test]
fn tip_index_out_of_range() {
    let (pol, _) = policy();
    assert_eq!(
        compose_tip_instruction(&pol, tips(5, 2)).unwrap_err(),
        ConfigError::TipIndexOutOfRange
    );
}

#[test]
fn tip_with_budget_and_extra_instructions() {
    let (pol, _) = policy();
    let extra = solana_sdk::instruction::Instruction {
        program_id: Pubkey::new_unique(),
        accounts: vec![],
        data: vec![9, 9],
    };
    let mut t = tips(3_000_000, 0);
    t.cu = Some(200_000);
    t.priority_fee_micro_lamport = Some(7);
    t.pure_ix = vec![extra.clone()];
    let ixs = compose_tip_instruction(&pol, t).unwrap();
    assert_eq!(ixs.len(), 4);
    let mut limit = vec![2u8];
    limit.extend_from_slice(&200_000u32.to_le_bytes());
    assert_eq!(ixs[0].data, limit);
    assert_eq!(ixs[0].program_id, solana_sdk::compute_budget::id());
    assert_eq!(ixs[1].program_id, solana_sdk::compute_budget::id());
    let mut price = vec![3u8];
    price.extend_from_slice(&7u64.to_le_bytes());
    assert_eq!(ixs[1].data, price);
    assert_eq!(ixs[2], extra);
    assert_eq!(ixs[3].data, transfer_data(3_000_000));
}

#[test]
fn tip_policy_rejects_bad_account() {
    let accounts = vec![Pubkey::new_unique().to_string(), "not-a-key!".to_string()];
    assert_eq!(
        TipPolicy::from_accounts(1, &accounts).unwrap_err(),
        ConfigError::InvalidTipAccount(1)
    );
}

#[test]
fn elapsed_formats() {
    assert_eq!(format_elapsed(Duration::from_millis(1500)), "1s : 500ms");
    assert_eq!(format_elapsed(Duration::from_nanos(0)), "0µs");
    assert_eq!(format_elapsed(Duration::from_micros(250)), "250µs");
    assert_eq!(format_elapsed(Duration::from_secs(2)), "2s");
    assert_eq!(format_elapsed(Duration::from_micros(1_000_250)), "1s : 250µs");
    assert_eq!(format_elapsed(Duration::from_micros(12_345)), "12ms");
    assert_eq!(format_elapsed(Duration::from_nanos(999)), "0µs");
    assert_eq!(format_elapsed_parts(61, 7_000_000), "61s : 7ms");
}

#[test]
fn region_tables() {
    let jito = jito_regions();
    assert_eq!(jito.len(), 8);
    assert_eq!(jito[0].relayer, JitoRegionsType::Mainnet);
    assert_eq!(jito[0].relayer_name, "Jito-Mainnet");
    let tokyo = jito_endpoint(JitoRegionsType::Tokyo);
    assert_eq!(tokyo.ping_endpoint, "tokyo.mainnet.block-engine.jito.wtf");
    let nozomi = nozomi_regions();
    assert_eq!(nozomi.len(), 12);
    assert_eq!(nozomi[11].relayer, NozomiRegionsType::FraSecure);
}

#[test]
fn every_region_table_starts_with_its_default() {
    assert_eq!(astra_regions().len(), 7);
    assert_eq!(astra_regions()[0].relayer, AstraRegionsType::LA);
    assert_eq!(blockrazor_regions().len(), 4);
    assert_eq!(blockrazor_regions()[0].relayer, BRazorRegionsType::NewYork);
    assert_eq!(bloxroute_regions().len(), 7);
    assert_eq!(bloxroute_regions()[0].relayer, BxRouteRegionsType::Uk);
    assert_eq!(helius_regions().len(), 7);
    assert_eq!(helius_regions()[0].relayer, HeliusRegionsType::Slc);
    assert_eq!(nextblock_regions().len(), 9);
    assert_eq!(nextblock_regions()[0].relayer, NextBlockRegionsType::Fra);
    assert_eq!(zero_slot_regions().len(), 5);
    assert_eq!(zero_slot_regions()[0].relayer, ZSlotRegionsType::NewYork);
    assert_eq!(nozomi_regions()[0].relayer, NozomiRegionsType::PittDirect);
}

#[test]
fn classify_precedence() {
    let body = "<html>{\"error\":\"x\"}</html>";
    assert_eq!(classify_body(body, false, true), Err(SubmitError::HtmlPage));
    let body = "{\"error\":\"Unauthorized\"}";
    assert_eq!(classify_response(body, true), Err(SubmitError::AuthRejected(body.to_string())));
    assert_eq!(classify_response("{\"error\":null}", false), Err(SubmitError::Unparseable("{\"error\":null}".to_string())));
}

#[test]
fn selector_single_region() {
    assert_eq!(select_best(&vec![Some(5)]), Some(0));
    assert_eq!(select_best(&vec![None]), None);
    assert_eq!(select_best(&vec![Some(u64::MAX), Some(u64::MAX - 1)]), Some(1));
}

#[test]
fn tip_compute_limit_too_large() {
    let (pol, _) = policy();
    let mut t = tips(5, 0);
    t.cu = Some(u32::MAX as u64 + 1);
    assert_eq!(compose_tip_instruction(&pol, t).unwrap_err(), ConfigError::ComputeUnitLimitTooLarge);
    let mut t = tips(5, 0);
    t.cu = Some(u32::MAX as u64);
    assert_eq!(compose_tip_instruction(&pol, t).unwrap().len(), 2);
    let mut t = tips(5, 9);
    t.cu = Some(u64::MAX);
    assert_eq!(compose_tip_instruction(&pol, t).unwrap_err(), ConfigError::TipIndexOutOfRange);
}

#[test]
fn tip_policy_keeps_parsed_keys() {
    let keys = vec![Pubkey::new_unique(), Pubkey::new_unique(), Pubkey::new_unique()];
    let accounts: Vec<String> = keys.iter().map(|k| k.to_string()).collect();
    let pol = TipPolicy::from_accounts(7, &accounts).unwrap();
    assert_eq!(pol.recipients, keys);
    assert_eq!(pol.min_tip_lamports, 7);
}

#[test]
fn endpoint_lookup_matches_table() {
    for e in jito_regions() {
        let looked_up = jito_endpoint(e.relayer);
        assert_eq!(looked_up.relayer_name, e.relayer_name);
        assert_eq!(looked_up.submit_endpoint, e.submit_endpoint);
        assert_eq!(looked_up.ping_endpoint, e.ping_endpoint);
    }
    let ams = jito_endpoint(JitoRegionsType::Amsterdam);
    assert_eq!(ams.relayer_name, "Jito-Amsterdam");
    assert_eq!(ams.submit_endpoint, "https://amsterdam.mainnet.block-engine.jito.wtf/api/v1/transactions");
}

#[test]
fn config_error_recorded_as_failure() {
    let mut d = Dispatcher::new(names(&["A"]), fresh(1), 1);
    assert!(d.begin(0, 0));
    d.complete(0, Err(SubmitError::Config(ConfigError::TipIndexOutOfRange)), 0, 0);
    let (results, health) = d.finish();
    assert_eq!(results[0].error, Some(SubmitError::Config(ConfigError::TipIndexOutOfRange)));
    assert_eq!(health[0].consecutive_failures, 1);
}
