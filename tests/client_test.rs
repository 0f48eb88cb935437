use cw_sauron::{
    LogField, LogGroup, LogLine, LogQueryInfo, LogQueryInfoList, LogResults, LogStream, LogTail,
    Pager, QueryStatus, SearchExecution, SearchRequest, SearchState,
};

type Page<T> = (Vec<T>, Option<String>);

/// Runs a pager against pages served in turn; returns the items and the
/// tokens that each call was made with.
fn run_pager<T: Clone>(pages: Vec<Page<T>>) -> (Vec<T>, Vec<Option<String>>) {
    let mut pager: Pager<T> = Pager::new();
    let mut calls: Vec<Option<String>> = vec![];
    while let Some(token) = pager.next_request() {
        let (items, next) = pages[calls.len()].clone();
        calls.push(token);
        pager.accept(items, next);
    }
    (pager.into_items(), calls)
}

fn query_info(id: &str, name: &str, query: &str, log_group_names: Vec<&str>) -> LogQueryInfo {
    LogQueryInfo {
        id: id.to_string(),
        name: name.to_string(),
        query: query.to_string(),
        log_group_names: log_group_names.into_iter().map(|g| g.to_string()).collect(),
    }
}

fn field(name: &str, value: &str) -> LogField {
    LogField {
        field: name.to_string(),
        value: value.to_string(),
    }
}

fn dinosaur_catalog() -> LogQueryInfoList {
    LogQueryInfoList {
        queries: vec![
            query_info("dinosaur", "DinoQuery", "fields dinosaur", vec!["dinosaur::logs"]),
            query_info("dinosaur", "DinoQuery2", "fields dinosaur", vec![]),
        ],
    }
}

/// Starts the search for `query_id` and answers its polls in turn; returns
/// the outcome and the number of polls made.
fn run_search(
    query_id: &str,
    answers: Vec<(QueryStatus, Vec<Vec<LogField>>)>,
) -> (Result<LogResults, String>, usize) {
    let request = SearchRequest::for_saved_query(&dinosaur_catalog(), &query_id.to_string(), 10, 20);
    let request = match request {
        Ok(r) => r,
        Err(e) => return (Err(e.to_string()), 0),
    };
    assert_eq!(request.query, "fields dinosaur");
    let mut execution = SearchExecution::new("dinosaur_id".to_string());
    let mut answers = answers.into_iter();
    let mut polls = 0;
    while let Some(handle) = execution.next_poll() {
        assert_eq!(handle, "dinosaur_id");
        polls += 1;
        let (status, rows) = answers.next().unwrap();
        if let Some(outcome) = execution.on_poll(status, rows) {
            return (outcome.map_err(|e| e.to_string()), polls);
        }
    }
    unreachable!()
}

fn run_tail(responses: Vec<(Vec<&str>, Option<&str>)>) -> (LogResults, Vec<Option<String>>) {
    let mut tail = LogTail::new();
    let mut calls: Vec<Option<String>> = vec![];
    while let Some(token) = tail.next_request() {
        let (messages, next) = &responses[calls.len()];
        calls.push(token);
        tail.accept(
            messages.iter().map(|m| m.to_string()).collect(),
            next.map(|t| t.to_string()),
        );
    }
    (tail.into_results(), calls)
}

fn message_line(text: &str) -> LogLine {
    LogLine {
        fields: vec![field("@message", text)],
    }
}

#[test]
fn cloudwatch_should_return_queries() {
    let (queries, calls) = run_pager(vec![(
        vec![
            query_info("dinosaur", "DinoQuery", "fields dinosaur", vec!["dinosaur::logs"]),
            query_info("dinosaur", "DinoQuery2", "fields dinosaur", vec![]),
        ],
        None,
    )]);

    assert_eq!(calls, vec![None]);
    assert_eq!(
        LogQueryInfoList { queries },
        LogQueryInfoList {
            queries: vec![
                query_info("dinosaur", "DinoQuery", "fields dinosaur", vec!["dinosaur::logs"]),
                query_info("dinosaur", "DinoQuery2", "fields dinosaur", vec![]),
            ]
        }
    );
}

#[test]
fn should_return_queries_with_token() {
    let (queries, calls) = run_pager(vec![
        (
            vec![query_info("dinosaur", "DinoQuery", "fields dinosaur", vec!["dinosaur::logs"])],
            Some("batata".to_string()),
        ),
        (
            vec![query_info("dinosaur", "DinoQuery2", "fields dinosaur", vec![])],
            None,
        ),
    ]);

    assert_eq!(calls, vec![None, Some("batata".to_string())]);
    assert_eq!(
        LogQueryInfoList { queries },
        LogQueryInfoList {
            queries: vec![
                query_info("dinosaur", "DinoQuery", "fields dinosaur", vec!["dinosaur::logs"]),
                query_info("dinosaur", "DinoQuery2", "fields dinosaur", vec![]),
            ]
        }
    );
}

#[test]
fn should_return_empty_query_list() {
    let (queries, calls) = run_pager::<LogQueryInfo>(vec![(vec![], None)]);

    assert_eq!(calls.len(), 1);
    assert_eq!(LogQueryInfoList { queries }, LogQueryInfoList { queries: vec![] });
}

#[test]
fn should_return_query_results_when_available() {
    let (outcome, polls) = run_search(
        "dinosaur",
        vec![(QueryStatus::Complete, vec![vec![field("@message", "Dinosaur Logs")]])],
    );

    assert!(outcome.is_ok());
    assert_eq!(polls, 1);
}

#[test]
fn should_return_query_results_when_complete() {
    let (outcome, polls) = run_search(
        "dinosaur",
        vec![
            (QueryStatus::Running, vec![]),
            (QueryStatus::Complete, vec![vec![field("@message", "Dinosaur Logs")]]),
        ],
    );

    assert!(outcome.is_ok());
    assert_eq!(polls, 2);
    assert_eq!(
        outcome.unwrap(),
        LogResults {
            lines: vec![message_line("Dinosaur Logs")]
        }
    );
}

#[test]
fn should_return_query_results_error_when_failed() {
    let (outcome, _) = run_search("dinosaur", vec![(QueryStatus::Failed, vec![])]);

    assert!(outcome.is_err());
    assert_eq!("Query failed to run", format!("{}", outcome.err().unwrap()));
}

#[test]
fn should_return_query_results_error_when_timeout() {
    let (outcome, _) = run_search("dinosaur", vec![(QueryStatus::Timeout, vec![])]);

    assert!(outcome.is_err());
    assert_eq!("Query failed to run", format!("{}", outcome.err().unwrap()));
}

#[test]
fn should_return_query_results_error_when_cancelled() {
    let (outcome, _) = run_search("dinosaur", vec![(QueryStatus::Cancelled, vec![])]);

    assert!(outcome.is_err());
    assert_eq!("Query failed to run", format!("{}", outcome.err().unwrap()));
}

#[test]
fn should_return_error_when_query_id_not_found() {
    let (outcome, polls) = run_search("batata", vec![]);

    assert!(outcome.is_err());
    assert_eq!(outcome.err().unwrap(), "Query with id=batata not found");
    assert_eq!(polls, 0);
}

#[test]
fn should_return_log_groups() {
    let (groups, calls) = run_pager(vec![(
        vec![LogGroup {
            name: "log_group_1".to_string(),
        }],
        None,
    )]);

    assert_eq!(calls.len(), 1);
    assert_eq!(groups[0].name, "log_group_1");
}

#[test]
fn should_return_log_groups_with_token() {
    let group = LogGroup {
        name: "log_group_1".to_string(),
    };
    let (groups, calls) = run_pager(vec![
        (vec![group.clone()], Some("batata".to_string())),
        (vec![group.clone()], None),
    ]);

    assert_eq!(calls, vec![None, Some("batata".to_string())]);
    assert_eq!(groups, vec![group.clone(), group]);
}

#[test]
fn should_return_log_streams() {
    let (streams, calls) = run_pager(vec![(
        vec![LogStream {
            name: "log_stream_1".to_string(),
        }],
        None,
    )]);

    assert_eq!(calls.len(), 1);
    assert_eq!(streams[0].name, "log_stream_1");
}

#[test]
fn should_return_log_streams_with_token() {
    let (streams, calls) = run_pager(vec![
        (
            vec![LogStream {
                name: "log_streams_1".to_string(),
            }],
            Some("batata".to_string()),
        ),
        (
            vec![LogStream {
                name: "log_streams_2".to_string(),
            }],
            None,
        ),
    ]);

    assert_eq!(calls.len(), 2);
    let names: Vec<String> = streams.into_iter().map(|s| s.name).collect();
    assert_eq!(names, vec!["log_streams_1", "log_streams_2"]);
}

#[test]
fn pager_concatenates_n_pages_in_n_calls() {
    let (items, calls) = run_pager(vec![
        (vec![1, 2], Some("a".to_string())),
        (vec![], Some("b".to_string())),
        (vec![3], Some("c".to_string())),
        (vec![4, 5, 6], None),
    ]);

    assert_eq!(items, vec![1, 2, 3, 4, 5, 6]);
    assert_eq!(
        calls,
        vec![
            None,
            Some("a".to_string()),
            Some("b".to_string()),
            Some("c".to_string())
        ]
    );
}

#[test]
fn pager_treats_an_empty_token_as_the_end() {
    let (items, calls) = run_pager(vec![(vec![7], Some(String::new()))]);

    assert_eq!(items, vec![7]);
    assert_eq!(calls.len(), 1);
}

#[test]
fn pager_reports_when_finished() {
    let mut pager: Pager<u8> = Pager::new();
    assert!(!pager.is_finished());
    pager.accept(vec![1], Some("t".to_string()));
    assert!(!pager.is_finished());
    assert_eq!(pager.next_request(), Some(Some("t".to_string())));
    pager.accept(vec![2], None);
    assert!(pager.is_finished());
    assert_eq!(pager.next_request(), None);
}

#[test]
fn resolver_returns_the_matching_entry() {
    let catalog = LogQueryInfoList {
        queries: vec![
            query_info("q0", "Other", "fields other", vec!["g0"]),
            query_info("q1", "Mine", "fields @message", vec!["g1", "g2"]),
        ],
    };

    let request = SearchRequest::for_saved_query(&catalog, &"q1".to_string(), 100, 200).unwrap();
    assert_eq!(request.query, "fields @message");
    assert_eq!(request.log_group_names, vec!["g1", "g2"]);
    assert_eq!((request.start_time, request.end_time), (100, 200));
}

#[test]
fn resolver_reports_an_absent_id() {
    let catalog = LogQueryInfoList { queries: vec![] };

    let error = SearchRequest::for_saved_query(&catalog, &"q9".to_string(), 0, 0).err().unwrap();
    assert_eq!(error.details, "Query with id=q9 not found");
}

#[test]
fn non_terminal_statuses_ask_for_another_poll() {
    for status in [QueryStatus::Running, QueryStatus::Scheduled, QueryStatus::Unknown] {
        let mut execution = SearchExecution::new("h".to_string());
        assert!(execution.on_poll(status, vec![]).is_none());
        assert_eq!(execution.state(), SearchState::Polling);
        assert_eq!(execution.next_poll(), Some("h".to_string()));
    }
}

#[test]
fn terminal_statuses_end_the_search() {
    let cases = [
        (QueryStatus::Failed, SearchState::Failed),
        (QueryStatus::Timeout, SearchState::TimedOut),
        (QueryStatus::Cancelled, SearchState::Cancelled),
    ];
    for (status, state) in cases {
        let mut execution = SearchExecution::new("h".to_string());
        let outcome = execution.on_poll(status, vec![vec![field("a", "b")]]);
        assert_eq!(outcome.unwrap().unwrap_err().details, "Query failed to run");
        assert_eq!(execution.state(), state);
        assert_eq!(execution.next_poll(), None);
    }
}

#[test]
fn complete_returns_exactly_the_rows_of_that_answer() {
    let mut execution = SearchExecution::new("h".to_string());
    assert_eq!(execution.state(), SearchState::Started);
    let rows = vec![
        vec![field("@timestamp", "t1"), field("@message", "one")],
        vec![],
        vec![field("@message", "three"), field("@message", "again")],
    ];
    let results = execution.on_poll(QueryStatus::Complete, rows).unwrap().unwrap();
    assert_eq!(
        results,
        LogResults {
            lines: vec![
                LogLine {
                    fields: vec![field("@timestamp", "t1"), field("@message", "one")]
                },
                LogLine { fields: vec![] },
                LogLine {
                    fields: vec![field("@message", "three"), field("@message", "again")]
                },
            ]
        }
    );
    assert_eq!(execution.state(), SearchState::Complete);
}

#[test]
fn round_trip_saved_query_execution() {
    let catalog = LogQueryInfoList {
        queries: vec![query_info("q1", "Q1", "fields @message", vec!["g1"])],
    };
    let request = SearchRequest::for_saved_query(&catalog, &"q1".to_string(), 1000, 2000).unwrap();
    assert_eq!(request.log_group_names, vec!["g1"]);
    assert_eq!(request.query, "fields @message");

    let mut execution = SearchExecution::new("H".to_string());
    assert_eq!(execution.next_poll(), Some("H".to_string()));
    assert!(execution.on_poll(QueryStatus::Running, vec![]).is_none());
    assert_eq!(execution.next_poll(), Some("H".to_string()));
    let results = execution
        .on_poll(QueryStatus::Complete, vec![vec![field("@message", "hello")]])
        .unwrap()
        .unwrap();
    assert_eq!(results.lines.len(), 1);
    assert_eq!(results.lines[0].fields, vec![field("@message", "hello")]);
}

#[test]
fn tail_stops_when_the_token_repeats() {
    let (results, calls) = run_tail(vec![
        (vec!["first"], Some("T1")),
        (vec!["second"], Some("T1")),
        (vec!["never"], None),
    ]);

    assert_eq!(calls, vec![None, Some("T1".to_string())]);
    assert_eq!(
        results,
        LogResults {
            lines: vec![message_line("first"), message_line("second")]
        }
    );
}

#[test]
fn tail_stops_when_the_token_disappears() {
    let (results, calls) = run_tail(vec![
        (vec!["first"], Some("T1")),
        (vec![], None),
        (vec!["never"], None),
    ]);

    assert_eq!(calls.len(), 2);
    assert_eq!(
        results,
        LogResults {
            lines: vec![message_line("first")]
        }
    );
}

#[test]
fn tail_stops_on_an_empty_token() {
    let (_, calls) = run_tail(vec![(vec![], Some("T1")), (vec![], Some("")), (vec![], None)]);

    assert_eq!(calls.len(), 2);
}

#[test]
fn tail_follows_changing_tokens() {
    let (results, calls) = run_tail(vec![
        (vec!["a"], Some("T1")),
        (vec!["b", "c"], Some("T2")),
        (vec![], Some("T2")),
    ]);

    assert_eq!(
        calls,
        vec![None, Some("T1".to_string()), Some("T2".to_string())]
    );
    assert_eq!(
        results,
        LogResults {
            lines: vec![message_line("a"), message_line("b"), message_line("c")]
        }
    );
}

#[test]
fn tail_of_a_stream_without_token_makes_one_call() {
    let (results, calls) = run_tail(vec![(vec!["only"], None)]);

    assert_eq!(calls, vec![None]);
    assert_eq!(results.lines, vec![message_line("only")]);
}
