//! AI functions backed by Gemini.
#![allow(non_snake_case)]
pub mod helpers;
pub mod calls;
pub mod ai;
pub mod aiCtx;
pub mod aiClassify;
pub mod aiClassifyCtx;
pub mod aiDecide;
pub mod aiDecideCtx;
pub mod aiExtract;
pub mod aiExtractCtx;
pub mod imageAnalyze;
