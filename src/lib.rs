//! A supportive-reply service library: prompt templating, context rendering,
//! extraction of the structured reply of a generative model, construction of
//! the stored record, and the step function that drives one "tell".
pub mod json;
pub mod prompts;
pub mod record;
pub mod reply;
pub mod request;
pub mod schema;
pub mod tell;
pub mod text;
