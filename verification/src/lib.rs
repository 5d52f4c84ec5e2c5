//! Core logic of the postgraph analytics server: the computations behind its
//! analytics endpoints, the rules its request handlers enforce, the decisions
//! of its background jobs, and the text it sends to and reads from the LLM.

pub mod health;
pub mod text;
pub mod views;
pub mod engagement;
pub mod histogram;
pub mod heatmap;
pub mod ranking;
pub mod subject_graph;
pub mod llm;
pub mod threads;
pub mod requests;
pub mod jobs;
pub mod tasks;
pub mod errors;
pub mod dates;
pub mod reports;
pub mod subjects;
pub mod schedule;
