use process_supervisor::dispatcher::{
    AssignedProcess, DispatchState, DispatcherClient, ObtainBody, ObtainReply,
    ProcessDispatcherClientError, ProcessFinishReport, ProcessingMode, ReportReply,
    REPORT_STATUS_ERROR, REPORT_STATUS_SUCCESS,
};
use process_supervisor::env::EnvParams;

fn client() -> DispatcherClient {
    DispatcherClient::new(&EnvParams::new(
        8080,
        20,
        10,
        "http://dispatcher/obtain_new_process/{supervisor_id}".to_string(),
        "http://dispatcher/report_process_finish/{process_id}".to_string(),
        "node-1".to_string(),
    ))
}

fn work_unit() -> AssignedProcess {
    AssignedProcess {
        id: "unit-9".to_string(),
        source_id: 17,
        state: DispatchState::Pending,
        mode: ProcessingMode::Sandbox,
        created_at: 1_700_000_000_123,
        supervisor_id: "node-1".to_string(),
    }
}

#[test]
fn processing_mode_by_number() {
    assert_eq!(ProcessingMode::new(1), ProcessingMode::Regular);
    assert_eq!(ProcessingMode::new(2), ProcessingMode::Sandbox);
    assert_eq!(ProcessingMode::from_number(1), Some(ProcessingMode::Regular));
    assert_eq!(ProcessingMode::from_number(2), Some(ProcessingMode::Sandbox));
    assert_eq!(ProcessingMode::from_number(0), None);
    assert_eq!(ProcessingMode::from_number(3), None);
    assert_eq!(ProcessingMode::from_number(-1), None);
}

#[test]
fn report_status_words() {
    assert_eq!(REPORT_STATUS_SUCCESS, "success");
    assert_eq!(REPORT_STATUS_ERROR, "error");
}

#[test]
fn finish_report_holds_its_parts() {
    let report = ProcessFinishReport::new("p".to_string(), "success".to_string());
    assert_eq!(report.process_id(), "p");
    assert_eq!(report.result(), "success");
}

#[test]
fn finish_report_for_an_exit() {
    assert_eq!(ProcessFinishReport::for_exit("p".to_string(), Some(0)).result(), "success");
    assert_eq!(ProcessFinishReport::for_exit("p".to_string(), Some(1)).result(), "error");
    assert_eq!(ProcessFinishReport::for_exit("p".to_string(), Some(-1)).result(), "error");
    assert_eq!(ProcessFinishReport::for_exit("p".to_string(), Some(9999999)).result(), "error");
    assert_eq!(ProcessFinishReport::for_exit("p".to_string(), None).result(), "error");
    assert_eq!(ProcessFinishReport::for_exit("p".to_string(), None).process_id(), "p");
}

#[test]
fn obtain_url_carries_the_supervisor_id() {
    assert_eq!(
        client().obtain_new_process_url(),
        "http://dispatcher/obtain_new_process/node-1"
    );
}

#[test]
fn report_url_carries_the_process_id() {
    let report = ProcessFinishReport::for_exit("unit-9".to_string(), Some(0));
    assert_eq!(
        client().report_process_finish_url(&report),
        "http://dispatcher/report_process_finish/unit-9"
    );
}

#[test]
fn obtain_yields_the_work_unit_of_a_good_answer() {
    let answer = client().obtain_new_process(ObtainReply::Answered {
        status: 200,
        body: ObtainBody::Process(work_unit()),
    });
    let unit = answer.unwrap();
    assert_eq!(unit.id(), "unit-9");
    assert_eq!(unit.source_id(), 17);
    assert_eq!(unit.state, DispatchState::Pending);
    assert_eq!(unit.mode, ProcessingMode::Sandbox);
    assert_eq!(unit.created_at, 1_700_000_000_123);
    assert_eq!(unit.supervisor_id, "node-1");
}

#[test]
fn obtain_fails_on_each_kind_of_bad_answer() {
    let unreachable = client().obtain_new_process(ObtainReply::Unreachable("timeout".to_string()));
    assert!(matches!(
        unreachable,
        Err(ProcessDispatcherClientError::NetworkProblem(text))
            if text == "Failed to fetch data from dispatcher: timeout"
    ));
    let refused = client().obtain_new_process(ObtainReply::Answered {
        status: 503,
        body: ObtainBody::Process(work_unit()),
    });
    assert!(matches!(
        refused,
        Err(ProcessDispatcherClientError::NetworkProblem(text))
            if text == "Failed to fetch data from dispatcher: unexpected status 503"
    ));
    let unreadable = client().obtain_new_process(ObtainReply::Answered {
        status: 200,
        body: ObtainBody::Unreadable("cut off".to_string()),
    });
    assert!(matches!(
        unreadable,
        Err(ProcessDispatcherClientError::BadResponseBody(text))
            if text == "Failed to get response body string: cut off"
    ));
    let malformed = client().obtain_new_process(ObtainReply::Answered {
        status: 299,
        body: ObtainBody::Malformed("expected value at line 1".to_string()),
    });
    assert!(matches!(
        malformed,
        Err(ProcessDispatcherClientError::ParseError(text))
            if text == "Failed to parse response: expected value at line 1"
    ));
}

#[test]
fn obtain_counts_only_2xx_as_success() {
    for status in [0u16, 100, 199, 300, 404, 500, 65535] {
        let answer = client().obtain_new_process(ObtainReply::Answered {
            status,
            body: ObtainBody::Process(work_unit()),
        });
        assert!(matches!(answer, Err(ProcessDispatcherClientError::NetworkProblem(_))), "{}", status);
    }
    for status in [200u16, 201, 204, 299] {
        let answer = client().obtain_new_process(ObtainReply::Answered {
            status,
            body: ObtainBody::Process(work_unit()),
        });
        assert!(answer.is_ok(), "{}", status);
    }
}

#[test]
fn report_is_delivered_only_by_a_2xx_answer() {
    assert!(client().report_process_finish(ReportReply::Answered { status: 200 }).is_ok());
    assert!(client().report_process_finish(ReportReply::Answered { status: 204 }).is_ok());
    let refused = client().report_process_finish(ReportReply::Answered { status: 500 });
    assert!(matches!(
        refused,
        Err(ProcessDispatcherClientError::NetworkProblem(text))
            if text == "Failed to report process finish: unexpected status 500"
    ));
    let unreachable =
        client().report_process_finish(ReportReply::Unreachable("connect error".to_string()));
    assert!(matches!(
        unreachable,
        Err(ProcessDispatcherClientError::NetworkProblem(text))
            if text == "Failed to report process finish: connect error"
    ));
}
