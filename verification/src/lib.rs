//! Three Sakila/Pagila analytics reports over DuckDB's Parquet scanner,
//! each result checked against five named contracts before it is handed out.

pub mod contracts;
pub mod paths;
pub mod rows;
pub mod sql;

pub use contracts::{breach_message, Contract, Report};
pub use rows::{
    assert_contracts_actors, assert_contracts_customers, assert_contracts_films, check_contracts_actors,
    check_contracts_customers, check_contracts_films, TopActor,
    TopCustomer, TopFilm,
};
pub use paths::{pagila_root, resolve_pagila_root};
pub use sql::{build_actor_sql, build_customer_sql, build_film_sql};
