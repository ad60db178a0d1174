use flight_lookup::flight_contract::RequestError;
use flight_lookup::handler::{
    begin, flight_details, response_status, BodyStep, CacheWrite, Handled, LookupStep, SentStep,
    ERROR_STATUS, OK_STATUS,
};
use flight_lookup::upstream::Provider;
use std::collections::HashMap;

#[derive(Debug, Clone, PartialEq)]
struct Leg {
    number: String,
    status: String,
}

fn leg(number: &str, status: &str) -> Leg {
    Leg { number: number.to_string(), status: status.to_string() }
}

fn error(message: &str) -> RequestError {
    RequestError { message: message.to_string() }
}

/// A cache and a provider in memory, driven through the stages as a server
/// would drive them.
struct World {
    cache: HashMap<String, (Leg, u64)>,
    upstream: (Option<u16>, Option<Vec<Leg>>),
    cache_reads: usize,
    upstream_calls: usize,
    cache_writes: usize,
}

impl World {
    fn new(upstream: (Option<u16>, Option<Vec<Leg>>)) -> World {
        World { cache: HashMap::new(), upstream, cache_reads: 0, upstream_calls: 0, cache_writes: 0 }
    }

    fn serve(&mut self, number: &str, date: &str) -> Result<Vec<Leg>, RequestError> {
        let lookup = match begin(number, date) {
            Ok(lookup) => lookup,
            Err(error) => return Err(error),
        };
        self.cache_reads += 1;
        let entry = self.cache.get(&lookup.key()).map(|stored| stored.0.clone());
        let fetch = match lookup.on_reply(entry) {
            LookupStep::Respond(batch) => return Ok(batch),
            LookupStep::Fetch(fetch) => fetch,
        };
        assert_eq!(fetch.number(), number);
        assert_eq!(fetch.date(), date);
        self.upstream_calls += 1;
        let read = match fetch.on_sent(self.upstream.0) {
            SentStep::Respond(error) => return Err(error),
            SentStep::ReadBody(read) => read,
        };
        match read.on_body(self.upstream.1.clone()) {
            BodyStep::Respond(error) => Err(error),
            BodyStep::Store(write, batch) => {
                self.cache_writes += 1;
                self.cache.insert(write.key, (batch[write.index].clone(), write.ttl_seconds));
                Ok(batch)
            }
        }
    }
}

#[test]
fn invalid_date_is_rejected_before_any_io() {
    let mut world = World::new((Some(200), Some(vec![leg("BA123", "Expected")])));
    assert_eq!(world.serve("BA123", "2024-01"), Err(error("Invalid date provided")));
    assert_eq!(world.serve("BA123", "2024-01-01-01"), Err(error("Invalid date provided")));
    assert_eq!((world.cache_reads, world.upstream_calls, world.cache_writes), (0, 0, 0));
    assert!(world.cache.is_empty());
}

#[test]
fn begin_gives_the_key_to_read() {
    let lookup = begin("BA123", "2024-01-01").unwrap();
    assert_eq!(lookup.key(), "BA123*2024-01-01");
    let accepted = begin("XX1", "99-99-9999").unwrap();
    assert_eq!(accepted.key(), "XX1*99-99-9999");
}

#[test]
fn cache_hit_returns_the_one_record_without_upstream() {
    let mut world = World::new((Some(200), Some(vec![leg("BA123", "other"), leg("BA123", "x")])));
    world.cache.insert("BA123*2024-01-01".to_string(), (leg("BA123", "Arrived"), 86400));
    assert_eq!(world.serve("BA123", "2024-01-01"), Ok(vec![leg("BA123", "Arrived")]));
    assert_eq!(world.upstream_calls, 0);
    assert_eq!(world.cache_writes, 0);
    assert_eq!(world.cache_reads, 1);
}

#[test]
fn cache_miss_returns_the_batch_and_stores_its_first_record() {
    let batch = vec![leg("LH456", "Departed"), leg("LH456", "Expected")];
    let mut world = World::new((Some(200), Some(batch.clone())));
    assert_eq!(world.serve("LH456", "2024-02-02"), Ok(batch));
    assert_eq!(world.cache.len(), 1);
    assert_eq!(world.cache.get("LH456*2024-02-02"), Some(&(leg("LH456", "Departed"), 86400)));
    assert_eq!((world.cache_reads, world.upstream_calls, world.cache_writes), (1, 1, 1));
}

#[test]
fn a_miss_is_followed_by_a_hit_on_the_first_record() {
    let batch = vec![leg("LH456", "Departed"), leg("LH456", "Expected")];
    let mut world = World::new((Some(200), Some(batch.clone())));
    assert_eq!(world.serve("LH456", "2024-02-02"), Ok(batch));
    assert_eq!(world.serve("LH456", "2024-02-02"), Ok(vec![leg("LH456", "Departed")]));
    assert_eq!((world.cache_reads, world.upstream_calls, world.cache_writes), (2, 1, 1));
}

#[test]
fn no_content_is_no_flight_found_and_writes_nothing() {
    let mut world = World::new((Some(204), None));
    assert_eq!(world.serve("BA123", "2024-01-01"), Err(error("No flight found")));
    assert!(world.cache.is_empty());
    assert_eq!((world.cache_reads, world.upstream_calls, world.cache_writes), (1, 1, 0));
}

#[test]
fn unparsable_body_is_reported_and_writes_nothing() {
    let mut world = World::new((Some(200), None));
    assert_eq!(world.serve("BA123", "2024-01-01"), Err(error("Could not parse server response")));
    assert!(world.cache.is_empty());
    assert_eq!(world.cache_writes, 0);
}

#[test]
fn unreachable_upstream_is_reported_and_writes_nothing() {
    let mut world = World::new((None, None));
    assert_eq!(world.serve("BA123", "2024-01-01"), Err(error("Could not contact server")));
    assert!(world.cache.is_empty());
    assert_eq!(world.cache_writes, 0);
}

#[test]
fn a_redirect_is_reported_as_unreachable() {
    let mut world = World::new((Some(302), Some(vec![leg("BA123", "Expected")])));
    assert_eq!(world.serve("BA123", "2024-01-01"), Err(error("Could not contact server")));
    assert!(world.cache.is_empty());
}

#[test]
fn repeated_hits_give_identical_responses() {
    let mut world = World::new((None, None));
    world.cache.insert("BA123*2024-01-01".to_string(), (leg("BA123", "Arrived"), 86400));
    let first = world.serve("BA123", "2024-01-01");
    for _ in 0..25 {
        assert_eq!(world.serve("BA123", "2024-01-01"), first);
    }
    assert_eq!(world.upstream_calls, 0);
    assert_eq!(world.cache.len(), 1);
}

#[test]
fn a_failure_is_not_remembered() {
    let mut world = World::new((Some(204), None));
    assert_eq!(world.serve("BA123", "2024-01-01"), Err(error("No flight found")));
    world.upstream = (Some(200), Some(vec![leg("BA123", "Expected")]));
    assert_eq!(world.serve("BA123", "2024-01-01"), Ok(vec![leg("BA123", "Expected")]));
    assert_eq!(world.upstream_calls, 2);
}

#[test]
fn flight_details_hit() {
    let handled = flight_details(
        "BA123",
        "2024-01-01",
        Some(leg("BA123", "Arrived")),
        Some(200),
        Some(vec![leg("BA123", "other")]),
    );
    assert_eq!(handled, Handled { response: Ok(vec![leg("BA123", "Arrived")]), write: None });
}

#[test]
fn flight_details_miss_with_batch() {
    let batch = vec![leg("LH456", "Departed"), leg("LH456", "Expected")];
    let handled = flight_details("LH456", "2024-02-02", None, Some(200), Some(batch.clone()));
    assert_eq!(
        handled,
        Handled {
            response: Ok(batch),
            write: Some(CacheWrite {
                key: "LH456*2024-02-02".to_string(),
                index: 0,
                ttl_seconds: 86400,
            }),
        }
    );
}

#[test]
fn flight_details_failures() {
    let none: Option<Leg> = None;
    let cases: [(&str, Option<u16>, Option<Vec<Leg>>, &str); 6] = [
        ("2024-01", Some(200), Some(vec![leg("BA123", "x")]), "Invalid date provided"),
        ("2024-01-01", Some(204), None, "No flight found"),
        ("2024-01-01", Some(204), Some(vec![leg("BA123", "x")]), "No flight found"),
        ("2024-01-01", Some(200), None, "Could not parse server response"),
        ("2024-01-01", Some(500), None, "Could not parse server response"),
        ("2024-01-01", None, None, "Could not contact server"),
    ];
    for (date, sent, body, message) in cases {
        let handled = flight_details("BA123", date, none.clone(), sent, body);
        assert_eq!(handled, Handled { response: Err(error(message)), write: None });
    }
}

#[test]
fn flight_details_reads_a_batch_whatever_the_status() {
    let batch = vec![leg("BA123", "Expected")];
    let handled = flight_details("BA123", "2024-01-01", None, Some(404), Some(batch.clone()));
    assert_eq!(handled.response, Ok(batch));
    assert_eq!(handled.write.map(|write| write.key), Some("BA123*2024-01-01".to_string()));
}

#[test]
fn request_error_new_carries_the_message() {
    assert_eq!(RequestError::new("No flight found"), error("No flight found"));
    assert_eq!(RequestError::default(), error(""));
}

fn miss(number: &str, date: &str) -> flight_lookup::handler::UpstreamFetch {
    match begin(number, date).unwrap().on_reply::<Leg>(None) {
        LookupStep::Fetch(fetch) => fetch,
        LookupStep::Respond(batch) => panic!("a miss was answered with {:?}", batch),
    }
}

#[test]
fn a_miss_sends_the_lookup_of_its_own_pair() {
    let provider =
        Provider { endpoint: "https://api.example.test".to_string(), api_key: "k1".to_string() };
    let request = miss("LH456", "2024-02-02").request(&provider).unwrap();
    assert_eq!(
        request.url,
        "https://api.example.test/flights/number/LH456/2024-02-02?withAircraftImage=true"
    );
    assert_eq!(request.header_name, "x-provider-api-key");
    assert_eq!(request.header_value, "k1");
    assert!(!request.follow_redirects);
}

#[test]
fn a_miss_has_no_request_without_an_absolute_endpoint() {
    let provider = Provider { endpoint: "nowhere".to_string(), api_key: "k1".to_string() };
    assert_eq!(miss("LH456", "2024-02-02").request(&provider), None);
}

#[test]
fn a_batch_goes_out_with_200_and_an_error_with_400() {
    assert_eq!(OK_STATUS, 200);
    assert_eq!(ERROR_STATUS, 400);
    assert_eq!(response_status(&Ok::<Vec<Leg>, RequestError>(vec![leg("BA123", "x")])), 200);
    for message in [
        "Invalid date provided",
        "No flight found",
        "Could not parse server response",
        "Could not contact server",
    ] {
        assert_eq!(response_status(&Err::<Vec<Leg>, RequestError>(error(message))), 400);
    }
    let hit = flight_details("BA123", "2024-01-01", Some(leg("BA123", "x")), None, None);
    assert_eq!(response_status(&hit.response), 200);
    let rejected = flight_details::<Leg>("BA123", "2024", None, None, None);
    assert_eq!(response_status(&rejected.response), 400);
}
