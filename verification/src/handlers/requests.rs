pub mod search_request;
