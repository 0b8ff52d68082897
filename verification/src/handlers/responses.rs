pub mod search_response;
