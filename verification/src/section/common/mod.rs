pub mod name_expression;
pub mod name_only;
pub mod pcds;
