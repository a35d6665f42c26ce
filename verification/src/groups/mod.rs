//! Subject groups: who belongs to which group, directly or through nesting.

pub mod entity;
pub mod membership;
pub mod reach;
pub mod repository;
pub mod service;
