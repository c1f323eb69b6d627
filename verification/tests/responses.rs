//! Response envelope tests: classification of decoded bodies, result
//! conversion and pagination cursors.

use twitch_helix::request::channels_commercial;
use twitch_helix::response::pagination::Pagination;
use twitch_helix::response::{
    HelixResponse, OAuthResponse, RawHelixBody, RawOAuthBody, ResponseData, ResponseError,
};

#[test]
fn classify_success_without_pagination() {
    let raw = RawHelixBody {
        data: Some(vec!["a".to_string(), "b".to_string()]),
        pagination: None,
        status: None,
        message: None,
        error: None,
    };
    let response = HelixResponse::classify(raw).unwrap();
    assert_eq!(
        response,
        HelixResponse::Success(ResponseData {
            data: vec!["a".to_string(), "b".to_string()],
            pagination: None,
        })
    );
}

#[test]
fn classify_error_shape() {
    let raw: RawHelixBody<Vec<String>> = RawHelixBody {
        data: None,
        pagination: None,
        status: Some(404),
        message: Some("Not Found".to_string()),
        error: None,
    };
    let response = HelixResponse::classify(raw).unwrap();
    assert_eq!(
        response,
        HelixResponse::Failure(ResponseError {
            error: None,
            status: 404,
            message: "Not Found".to_string(),
        })
    );
}

#[test]
fn classify_error_with_kind() {
    let raw: RawHelixBody<u8> = RawHelixBody {
        data: None,
        pagination: None,
        status: Some(401),
        message: Some("invalid token".to_string()),
        error: Some("Unauthorized".to_string()),
    };
    let response = HelixResponse::classify(raw).unwrap();
    assert_eq!(
        response,
        HelixResponse::Failure(ResponseError {
            error: Some("Unauthorized".to_string()),
            status: 401,
            message: "invalid token".to_string(),
        })
    );
}

#[test]
fn classify_malformed_body() {
    let raw: RawHelixBody<u8> = RawHelixBody {
        data: None,
        pagination: Some(Pagination::Bare("x".to_string())),
        status: Some(500),
        message: None,
        error: None,
    };
    assert!(HelixResponse::classify(raw).is_err());
}

#[test]
fn classify_success_wins_over_error_fields() {
    let raw = RawHelixBody {
        data: Some(1u8),
        pagination: None,
        status: Some(500),
        message: Some("ignored".to_string()),
        error: None,
    };
    let response = HelixResponse::classify(raw).unwrap();
    assert!(matches!(response, HelixResponse::Success(_)));
}

#[test]
fn classify_keeps_pagination() {
    let raw = RawHelixBody {
        data: Some(0u8),
        pagination: Some(Pagination::WithCursor {
            cursor: Some("abc".to_string()),
        }),
        status: None,
        message: None,
        error: None,
    };
    let response = HelixResponse::classify(raw).unwrap();
    assert_eq!(
        response,
        HelixResponse::Success(ResponseData {
            data: 0u8,
            pagination: Some(Pagination::WithCursor {
                cursor: Some("abc".to_string()),
            }),
        })
    );
}

#[test]
fn classify_oauth_bare_payload() {
    let raw = RawOAuthBody {
        value: Some("payload".to_string()),
        status: None,
        message: None,
        error: None,
    };
    let response = OAuthResponse::classify(raw).unwrap();
    assert_eq!(response, OAuthResponse::Success("payload".to_string()));
}

#[test]
fn classify_oauth_error_and_malformed() {
    let raw: RawOAuthBody<u8> = RawOAuthBody {
        value: None,
        status: Some(401),
        message: Some("invalid access token".to_string()),
        error: None,
    };
    let response = OAuthResponse::classify(raw).unwrap();
    assert_eq!(
        response,
        OAuthResponse::Failure(ResponseError {
            error: None,
            status: 401,
            message: "invalid access token".to_string(),
        })
    );

    let malformed: RawOAuthBody<u8> = RawOAuthBody {
        value: None,
        status: None,
        message: Some("half an error".to_string()),
        error: None,
    };
    assert!(OAuthResponse::classify(malformed).is_err());
}

#[test]
fn into_result_maps_variants() {
    let ok: HelixResponse<u8> = HelixResponse::Success(ResponseData {
        data: 3,
        pagination: None,
    });
    assert_eq!(
        ok.into_result(),
        Ok(ResponseData {
            data: 3,
            pagination: None,
        })
    );

    let err: HelixResponse<u8> = HelixResponse::Failure(ResponseError {
        error: None,
        status: 429,
        message: "Too Many Requests".to_string(),
    });
    assert_eq!(
        err.into_result(),
        Err(ResponseError {
            error: None,
            status: 429,
            message: "Too Many Requests".to_string(),
        })
    );

    let oauth_ok: OAuthResponse<u8> = OAuthResponse::Success(9);
    assert_eq!(oauth_ok.into_result(), Ok(9));
    let oauth_err: OAuthResponse<u8> = OAuthResponse::Failure(ResponseError {
        error: Some("Bad Request".to_string()),
        status: 400,
        message: "no".to_string(),
    });
    assert!(oauth_err.into_result().is_err());
}

#[test]
fn cursor_boundaries() {
    let absent = Pagination::WithCursor { cursor: None };
    assert_eq!(absent.as_cursor(), None);

    let present = Pagination::WithCursor {
        cursor: Some("eyJiIjpudWxsfQ".to_string()),
    };
    assert_eq!(present.as_cursor(), Some("eyJiIjpudWxsfQ"));

    let bare = Pagination::Bare("token".to_string());
    assert_eq!(bare.as_cursor(), None);
}

#[test]
fn commercial_response_decodes_single_element() {
    let raw = RawHelixBody {
        data: Some([channels_commercial::Response {
            length: 30,
            retry_after: 480,
        }]),
        pagination: None,
        status: None,
        message: None,
        error: None,
    };
    let response = HelixResponse::classify(raw).unwrap();
    match response {
        HelixResponse::Success(data) => {
            assert_eq!(data.data[0].length, 30);
            assert_eq!(data.data[0].retry_after, 480);
        }
        HelixResponse::Failure(_) => panic!("expected a success payload"),
    }
}
