//! Client logic for a news-headlines web API: request URL construction,
//! decoding of the JSON response envelope, and mapping of API-level errors.
mod error;
mod json;
mod request;
mod response;

pub use request::{Country, Endpoint, NewsAPI, BASE_URL};
pub use error::{map_response_err, NewsApiError};
pub use response::{
    check_status, decode_article, decode_articles, decode_envelope, read_response, Article,
    NewsAPIResponse,
};
