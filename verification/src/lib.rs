pub mod business_config;
pub mod data;
pub mod date;
pub mod fixed_rules;
pub mod io;
pub mod menu;
pub mod number;
pub mod regex_support;
pub mod status_certificate;
pub mod text;
pub mod validation;
