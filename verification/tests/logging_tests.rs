use opa::identity::{identities_query_addr, identity_oidc_addr, match_provider, KratosData, OidcProvider};
use opa::logging::{log_formater, LogData};

#[test]
fn test_formater() {
    let data = LogData {
        correlation_id: "examples".to_owned(),
        ip: "127.0.0.1".to_owned(),
        duration: "0.6000 ms".to_owned(),
        method: "GET".to_owned(),
        uri: "/".to_owned(),
        status: 404,
        referer: "".to_owned(),
    };
    let formated = log_formater(&data);
    let expected = "{\"correlation_id\":\"examples\",\"ipadress\":\"127.0.0.1\",\"duration\":\"0.6000 ms\",\"method\":\"GET\",\"uri\":\"/\",\"status\":\"404\",\"referer\":\"\"}";
    assert_eq!(formated, expected)
}

#[test]
fn identity_addresses_compose() {
    let user = KratosData {
        provider_id: "github".to_owned(),
        user_id: 1,
    };
    assert_eq!(
        identities_query_addr("http://kratos", &user),
        "http://kratos/identities?credentials.identifier=github:1"
    );
    assert_eq!(
        identity_oidc_addr("http://kratos", "lol"),
        "http://kratos/identities/lol?include_credential=oidc"
    );
}

#[test]
fn pusher_provider_is_found_by_subject_and_provider() {
    let providers = vec![
        OidcProvider {
            subject: "2".to_owned(),
            provider: "github".to_owned(),
            initial_access_token: "nope".to_owned(),
        },
        OidcProvider {
            subject: "1".to_owned(),
            provider: "gitlab".to_owned(),
            initial_access_token: "nope".to_owned(),
        },
        OidcProvider {
            subject: "1".to_owned(),
            provider: "github".to_owned(),
            initial_access_token: "gho_QRWWQERTQTR45655757745".to_owned(),
        },
    ];
    let user = KratosData {
        provider_id: "github".to_owned(),
        user_id: 1,
    };
    let i = match_provider(&providers, &user).unwrap();
    assert_eq!(i, 2);
    assert_eq!(providers[i].initial_access_token, "gho_QRWWQERTQTR45655757745");

    let stranger = KratosData {
        provider_id: "bitbucket".to_owned(),
        user_id: 1,
    };
    assert!(match_provider(&providers, &stranger).is_none());
    assert!(match_provider(&[].to_vec(), &user).is_none());
}

#[test]
fn token_is_taken_from_the_matching_identity() {
    let providers = vec![OidcProvider {
        subject: "1".to_owned(),
        provider: "github".to_owned(),
        initial_access_token: "gho_QRWWQERTQTR45655757745".to_owned(),
    }];
    let user = KratosData {
        provider_id: "github".to_owned(),
        user_id: 1,
    };
    let (token, id) =
        opa::identity::token_for_identity(&"lol".to_owned(), &providers, &user).unwrap();
    assert_eq!(token, "gho_QRWWQERTQTR45655757745");
    assert_eq!(id, "lol");
    assert!(opa::identity::token_for_identity(&"lol".to_owned(), &vec![], &user).is_none());
}
