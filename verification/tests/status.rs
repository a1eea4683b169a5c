use multi_group_mining::manager::MultiGroupXmrigManager;
use multi_group_mining::status::{
    summary_requests, Connection, CpuMinerConnectionStatus, CpuMinerStatus, Hashrate, Summary,
    SummaryRequest,
};

fn summary(uptime: u64, total: Vec<Option<f64>>) -> Summary<f64> {
    Summary {
        connection: Connection { uptime },
        hashrate: Hashrate { total },
    }
}

fn status(is_mining: bool, hash_rate: f64, is_connected: bool) -> CpuMinerStatus<f64> {
    CpuMinerStatus {
        is_mining,
        estimated_earnings: 0,
        hash_rate,
        connection: CpuMinerConnectionStatus { is_connected },
    }
}

#[test]
fn request_names_port_and_token() {
    let request = SummaryRequest::new(18081, "secret");
    assert_eq!(request.url, "http://127.0.0.1:18081/2/summary");
    assert_eq!(request.header, "Authorization");
    assert_eq!(request.credentials, "Bearer secret");
}

#[test]
fn one_request_per_port() {
    let requests = summary_requests(&vec![(1, "a".to_string()), (65535, "b".to_string())]);
    assert_eq!(requests.len(), 2);
    assert_eq!(requests[0].url, "http://127.0.0.1:1/2/summary");
    assert_eq!(requests[0].credentials, "Bearer a");
    assert_eq!(requests[1].url, "http://127.0.0.1:65535/2/summary");
    assert_eq!(requests[1].credentials, "Bearer b");
    assert!(summary_requests(&vec![]).is_empty());
}

#[test]
fn longest_average_counts() {
    let all = summary(1, vec![Some(1.5), Some(2.5), Some(3.5)]);
    assert_eq!(all.to_status(0.0), status(true, 3.5, true));
    let two = summary(1, vec![Some(1.5), Some(2.5), None]);
    assert_eq!(two.to_status(0.0).hash_rate, 2.5);
    let short = summary(1, vec![Some(1.5)]);
    assert_eq!(short.to_status(0.0).hash_rate, 1.5);
    let gap = summary(1, vec![Some(1.5), None, Some(3.5)]);
    assert_eq!(gap.to_status(0.0).hash_rate, 3.5);
    let first_only = summary(1, vec![Some(1.5), None, None]);
    assert_eq!(first_only.to_status(0.0).hash_rate, 1.5);
    let longer = summary(1, vec![None, None, None, Some(9.0)]);
    assert_eq!(longer.to_status(0.0).hash_rate, 0.0);
    assert_eq!(summary(1, vec![]).to_status(0.0).hash_rate, 0.0);
}

#[test]
fn uptime_means_connected() {
    assert_eq!(summary(0, vec![]).to_status(0.0), status(true, 0.0, false));
    assert_eq!(summary(1, vec![]).to_status(0.0), status(true, 0.0, true));
}

#[test]
fn replies_are_aggregated() {
    let replies = vec![
        Some(status(true, 100.25, false)),
        None,
        Some(status(false, 50.5, true)),
    ];
    let total = MultiGroupXmrigManager::aggregate_from_ports(&replies, 0.0, |a, b| a + b);
    assert_eq!(total, status(true, 150.75, true));
}

#[test]
fn manager_and_ports_agree() {
    let manager = MultiGroupXmrigManager::with_tokens(
        vec![1, 2],
        vec!["a".to_string(), "b".to_string()],
    );
    let replies = vec![Some(status(true, 1.0, false)), Some(status(true, 2.0, false))];
    let by_manager = manager.aggregate_status(&replies, 0.0, |a, b| a + b);
    let by_ports = MultiGroupXmrigManager::aggregate_from_ports(&replies, 0.0, |a, b| a + b);
    assert_eq!(by_manager, by_ports);
    assert_eq!(by_manager, status(true, 3.0, false));
}

#[test]
fn rates_are_added_from_the_left() {
    let replies = vec![
        Some(status(true, 1.0, false)),
        Some(status(true, 2.0, false)),
        Some(status(true, 3.0, false)),
    ];
    let total = MultiGroupXmrigManager::aggregate_from_ports(&replies, 100.0, |a, b| a - b);
    assert_eq!(total.hash_rate, 94.0);
}

#[test]
fn silence_is_no_mining() {
    let nothing: Vec<Option<CpuMinerStatus<f64>>> = vec![];
    let silent: Vec<Option<CpuMinerStatus<f64>>> = vec![None, None];
    for replies in [nothing, silent] {
        let total = MultiGroupXmrigManager::aggregate_from_ports(&replies, 0.0, |a, b| a + b);
        assert_eq!(total, status(false, 0.0, false));
    }
}

#[test]
fn silent_instance_counts_for_nothing() {
    let with = vec![Some(status(true, 1.0, true)), None, Some(status(true, 2.0, false))];
    let without = vec![Some(status(true, 1.0, true)), Some(status(true, 2.0, false))];
    assert_eq!(
        MultiGroupXmrigManager::aggregate_from_ports(&with, 0.0, |a, b| a + b),
        MultiGroupXmrigManager::aggregate_from_ports(&without, 0.0, |a, b| a + b)
    );
}

#[test]
fn mining_is_answering() {
    let idle = summary(0, vec![None]).to_status(0.0);
    let total = MultiGroupXmrigManager::aggregate_from_ports(&vec![None, Some(idle)], 0.0, |a, b| {
        a + b
    });
    assert!(total.is_mining);
    assert!(!total.connection.is_connected);
}
