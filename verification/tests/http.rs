use resvolt::error::APIError;
use resvolt::http::{
    HttpClient, HttpError, Method, RateLimit, Request, RouteClass, DELTA_API, JITTER_MILLIS,
    SHARED_PER_SECOND,
};
use resvolt::models::User;
use governor::clock::{Clock, FakeRelativeClock};
use governor::RateLimiter;
use std::time::Duration;

fn bot() -> User {
    User {
        id: "bot".to_string(),
        username: "bot".to_string(),
        avatar: None,
        status: None,
        badges: 0,
        flags: 0,
        online: true,
        bot: None,
    }
}

#[test]
fn url_is_the_api_and_the_path() {
    assert_eq!(HttpClient::make_url("users/@me"), "https://api.revolt.chat/users/@me");
    assert_eq!(HttpClient::make_url(""), "https://api.revolt.chat/");
    assert_eq!(DELTA_API, "https://api.revolt.chat");
}

#[test]
fn sending_a_message_has_a_limit_of_its_own() {
    let client = HttpClient::new(bot());
    assert_eq!(client.obtain_lease("channels/1/messages", Method::Post), RateLimit::Messages);
    assert_eq!(client.obtain_lease("channels/c9/messages", Method::Post), RateLimit::Messages);
    assert_eq!(RateLimit::Messages.per_second(), 1);
    assert_eq!(
        client.obtain_lease("channels/1/messages", Method::Get),
        RateLimit::Route(RouteClass::Channels)
    );
    assert_eq!(
        client.obtain_lease("channels/1/messages/2", Method::Post),
        RateLimit::Route(RouteClass::Channels)
    );
    assert_eq!(
        client.obtain_lease("channels/1/messages", Method::Delete),
        RateLimit::Route(RouteClass::Channels)
    );
    assert_eq!(client.obtain_lease("users/messages", Method::Post), RateLimit::Messages);
    assert_eq!(client.obtain_lease("messages", Method::Post), RateLimit::Shared);
}

#[test]
fn deleting_a_session_has_a_limit_of_its_own() {
    let client = HttpClient::new(bot());
    assert_eq!(client.obtain_lease("auth/session/1", Method::Delete), RateLimit::AuthDeletion);
    assert_eq!(client.obtain_lease("auth", Method::Delete), RateLimit::AuthDeletion);
    assert_eq!(RateLimit::AuthDeletion.per_second(), 25);
    assert_eq!(
        client.obtain_lease("auth/session/1", Method::Get),
        RateLimit::Route(RouteClass::Auth)
    );
    assert_eq!(client.obtain_lease("authors/1", Method::Delete), RateLimit::Shared);
    assert_eq!(
        client.obtain_lease("servers/auth", Method::Delete),
        RateLimit::Route(RouteClass::Servers)
    );
}

#[test]
fn other_requests_go_by_the_first_segment() {
    let client = HttpClient::new(bot());
    let cases = [
        ("bots/1", RouteClass::Bots),
        ("channels/1", RouteClass::Channels),
        ("servers/1", RouteClass::Servers),
        ("swagger", RouteClass::Swagger),
    ];
    for (path, class) in cases {
        assert_eq!(client.obtain_lease(path, Method::Get), RateLimit::Route(class));
        assert_eq!(client.obtain_lease(path, Method::Patch), RateLimit::Route(class));
        assert_eq!(client.obtain_lease(path, Method::Put), RateLimit::Route(class));
        assert_eq!(client.obtain_lease(path, Method::Post), RateLimit::Route(class));
        assert_eq!(client.obtain_lease(path, Method::Delete), RateLimit::Route(class));
    }
    assert_eq!(
        client.obtain_lease("auth/session", Method::Post),
        RateLimit::Route(RouteClass::Auth)
    );
    assert_eq!(client.obtain_lease("users/@me", Method::Get), RateLimit::Shared);
    assert_eq!(client.obtain_lease("", Method::Get), RateLimit::Shared);
    assert_eq!(client.obtain_lease("botsy/1", Method::Get), RateLimit::Shared);
}

#[test]
fn rates_are_a_tenth_of_the_published_limit_and_one_at_least() {
    assert_eq!(RouteClass::Bots.published_limit(), 10);
    assert_eq!(RouteClass::Channels.published_limit(), 15);
    assert_eq!(RouteClass::Servers.published_limit(), 5);
    assert_eq!(RouteClass::Auth.published_limit(), 3);
    assert_eq!(RouteClass::Swagger.published_limit(), 100);
    assert_eq!(RateLimit::Route(RouteClass::Bots).per_second(), 1);
    assert_eq!(RateLimit::Route(RouteClass::Channels).per_second(), 1);
    assert_eq!(RateLimit::Route(RouteClass::Servers).per_second(), 1);
    assert_eq!(RateLimit::Route(RouteClass::Auth).per_second(), 1);
    assert_eq!(RateLimit::Route(RouteClass::Swagger).per_second(), 10);
    assert_eq!(RateLimit::Shared.per_second(), 2);
    assert_eq!(SHARED_PER_SECOND, 2);
    assert_eq!(JITTER_MILLIS, 100);
}

#[test]
fn quota_lets_one_through_at_a_time_and_the_next_after_its_part_of_a_second() {
    let quota = RateLimit::Route(RouteClass::Swagger).quota();
    assert_eq!(quota.burst_size().get(), 1);
    assert_eq!(quota.replenish_interval(), Duration::from_millis(100));
    let quota = RateLimit::AuthDeletion.quota();
    assert_eq!(quota.burst_size().get(), 1);
    assert_eq!(quota.replenish_interval(), Duration::from_millis(40));
    let quota = RateLimit::Messages.quota();
    assert_eq!(quota.burst_size().get(), 1);
    assert_eq!(quota.replenish_interval(), Duration::from_secs(1));
    let quota = RateLimit::Shared.quota();
    assert_eq!(quota.burst_size().get(), 1);
    assert_eq!(quota.replenish_interval(), Duration::from_millis(500));
}

fn seconds_for(calls: u32, limit: RateLimit) -> Duration {
    let clock = FakeRelativeClock::default();
    let limiter = RateLimiter::direct_with_clock(limit.quota(), clock.clone());
    let mut waited = Duration::from_secs(0);
    let mut done = 0;
    while done < calls {
        match limiter.check() {
            Ok(()) => done += 1,
            Err(not_until) => {
                let wait = not_until.wait_time_from(clock.now());
                clock.advance(wait);
                waited += wait;
            }
        }
    }
    waited
}

#[test]
fn back_to_back_calls_are_spaced_by_the_quota() {
    assert_eq!(seconds_for(1, RateLimit::Messages), Duration::from_secs(0));
    assert_eq!(seconds_for(4, RateLimit::Messages), Duration::from_secs(3));
    assert_eq!(seconds_for(1, RateLimit::Shared), Duration::from_secs(0));
    assert_eq!(seconds_for(2, RateLimit::Shared), Duration::from_millis(500));
    assert_eq!(seconds_for(5, RateLimit::Shared), Duration::from_secs(2));
    assert_eq!(seconds_for(26, RateLimit::AuthDeletion), Duration::from_secs(1));
    assert_eq!(seconds_for(31, RateLimit::Route(RouteClass::Swagger)), Duration::from_secs(3));
    assert_eq!(seconds_for(3, RateLimit::Route(RouteClass::Servers)), Duration::from_secs(2));
}

#[test]
fn every_request_carries_its_limit_and_its_address() {
    let client = HttpClient::new(bot());
    assert_eq!(
        client.get("servers/1"),
        Request {
            method: Method::Get,
            url: "https://api.revolt.chat/servers/1".to_string(),
            limit: RateLimit::Route(RouteClass::Servers),
        }
    );
    assert_eq!(
        client.post("channels/1/messages"),
        Request {
            method: Method::Post,
            url: "https://api.revolt.chat/channels/1/messages".to_string(),
            limit: RateLimit::Messages,
        }
    );
    assert_eq!(client.put("servers/1/bans/2").method, Method::Put);
    assert_eq!(client.patch("users/@me").method, Method::Patch);
    assert_eq!(client.patch("users/@me").limit, RateLimit::Shared);
    assert_eq!(
        client.delete("auth/session/1"),
        Request {
            method: Method::Delete,
            url: "https://api.revolt.chat/auth/session/1".to_string(),
            limit: RateLimit::AuthDeletion,
        }
    );
    assert_eq!(client.bot, bot());
}

#[test]
fn success_is_a_status_from_200_to_299() {
    assert!(!HttpClient::is_success(199));
    assert!(HttpClient::is_success(200));
    assert!(HttpClient::is_success(204));
    assert!(HttpClient::is_success(299));
    assert!(!HttpClient::is_success(300));
    assert!(!HttpClient::is_success(404));
    assert!(!HttpClient::is_success(500));
}

#[test]
fn responses_become_values_or_errors() {
    assert_eq!(HttpClient::accepted(Ok::<u32, String>(7)), Ok(7));
    assert_eq!(
        HttpClient::accepted(Err::<u32, String>("eof".to_string())),
        Err(HttpError::Transport("eof".to_string()))
    );
    assert_eq!(
        HttpClient::refused(Ok(APIError::TooManyChannels { max: 5 })),
        HttpError::Api(APIError::TooManyChannels { max: 5 })
    );
    assert_eq!(
        HttpClient::refused(Ok(APIError::UnknownUser)),
        HttpError::Api(APIError::UnknownUser)
    );
    assert_eq!(
        HttpClient::refused(Err("not json".to_string())),
        HttpError::Transport("not json".to_string())
    );
}
