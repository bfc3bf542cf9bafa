mod client;
mod decode;
mod error;
mod indicator;
mod iterate;
mod json;
mod model;
mod text;

pub use client::rfc3339_of;
pub use client::spec_default_exchange;
pub use client::spec_subscribed_url;
pub use client::spec_threat_url;
pub use client::Client;
pub use client::Request;
pub use client::Timestamp;
pub use client::MAX_TIMESTAMP_SECS;
pub use decode::decode_indicator;
pub use decode::decode_threat;
pub use decode::decode_threats_page;
pub use decode::spec_count_field;
pub use decode::spec_cursor_field;
pub use decode::spec_field;
pub use decode::spec_indicator;
pub use decode::spec_indicator_obj;
pub use decode::spec_indicators;
pub use decode::spec_indicators_field;
pub use decode::spec_ok_status;
pub use decode::spec_opt_str_field;
pub use decode::spec_results_field;
pub use decode::spec_revision_field;
pub use decode::spec_str_arr_field;
pub use decode::spec_str_field;
pub use decode::spec_strings;
pub use decode::spec_threat;
pub use decode::spec_threat_obj;
pub use decode::spec_threat_response;
pub use decode::spec_threats;
pub use decode::spec_threats_page;
pub use decode::spec_threats_page_obj;
pub use decode::spec_threats_response;
pub use decode::threat_response;
pub use decode::threats_response;
pub use error::Error;
pub use iterate::IterStep;
pub use json::json_of;
pub use json::JsonValue;
pub use model::Indicator;
pub use model::IndicatorV;
pub use model::Threat;
pub use model::ThreatV;
pub use model::Threats;
pub use model::ThreatsV;
pub use text::dec_str;
pub use text::digit_char;
pub use indicator::lemma_parse_render;
pub use indicator::lemma_unknown_empty_text;
pub use indicator::spec_parse;
pub use indicator::spec_render;
pub use indicator::IndicatorType;
