use duckdb_reports::{
    assert_contracts_actors, assert_contracts_customers, assert_contracts_films, build_actor_sql,
    check_contracts_actors, check_contracts_customers, check_contracts_films,
    breach_message, build_customer_sql, build_film_sql, pagila_root, resolve_pagila_root, Contract, Report, TopActor,
    TopCustomer, TopFilm,
};

fn customer(id: i32, name: &str, count: i64) -> TopCustomer {
    TopCustomer {
        customer_id: id,
        name: name.to_string(),
        rental_count: count,
        email: None,
    }
}

fn film(id: i32, title: &str, count: i64) -> TopFilm {
    TopFilm {
        film_id: id,
        title: title.to_string(),
        rental_count: count,
    }
}

fn actor(id: i32, first: &str, last: &str, count: i64) -> TopActor {
    TopActor {
        actor_id: id,
        first_name: first.to_string(),
        last_name: last.to_string(),
        film_count: count,
    }
}

#[test]
fn resolve_uses_cwd_relative_when_data_present() {
    let r = resolve_pagila_root("/imaginary/crates/foo", |_| true);
    assert_eq!(r, "data/pagila");
}

#[test]
fn resolve_falls_back_to_manifest_relative_when_data_missing() {
    let r = resolve_pagila_root("/imaginary/crates/foo", |_| false);
    // Two levels up from the crate dir, then data/pagila.
    assert!(r.ends_with("data/pagila"));
    assert!(r.contains("imaginary"));
}

#[test]
fn customers_contract_holds_on_valid_input() {
    let rows = vec![
        TopCustomer {
            customer_id: 1,
            name: "ALICE A".to_string(),
            rental_count: 3,
            email: None,
        },
        TopCustomer {
            customer_id: 2,
            name: "BOB B".to_string(),
            rental_count: 2,
            email: None,
        },
    ];
    assert_contracts_customers(&rows, 2);
}

#[test]
fn films_contract_holds_on_valid_input() {
    let rows = vec![
        TopFilm {
            film_id: 1,
            title: "ACADEMY DINOSAUR".to_string(),
            rental_count: 3,
        },
        TopFilm {
            film_id: 2,
            title: "BEDROOM ROMANCE".to_string(),
            rental_count: 2,
        },
    ];
    assert_contracts_films(&rows, 2);
}

#[test]
fn actors_contract_holds_on_valid_input() {
    let rows = vec![
        TopActor {
            actor_id: 1,
            first_name: "PENELOPE".to_string(),
            last_name: "GUINESS".to_string(),
            film_count: 5,
        },
        TopActor {
            actor_id: 2,
            first_name: "NICK".to_string(),
            last_name: "WAHLBERG".to_string(),
            film_count: 4,
        },
    ];
    assert_contracts_actors(&rows, 2);
}

#[test]
fn build_customer_sql_embeds_dir_and_limit_placeholder() {
    let sql = build_customer_sql("/some/dir");
    assert!(sql.contains("'/some/dir/customer.parquet'"));
    assert!(sql.contains("'/some/dir/rental.parquet'"));
    assert!(sql.ends_with("LIMIT ?"));
}

#[test]
fn build_film_sql_embeds_dir_and_limit_placeholder() {
    let sql = build_film_sql("/some/dir");
    assert!(sql.contains("'/some/dir/film.parquet'"));
    assert!(sql.contains("'/some/dir/inventory.parquet'"));
    assert!(sql.contains("'/some/dir/rental.parquet'"));
    assert!(sql.ends_with("LIMIT ?"));
}

#[test]
fn build_actor_sql_embeds_dir_and_limit_placeholder() {
    let sql = build_actor_sql("/some/dir");
    assert!(sql.contains("'/some/dir/actor.parquet'"));
    assert!(sql.contains("'/some/dir/film_actor.parquet'"));
    assert!(sql.ends_with("LIMIT ?"));
}

// Each contract on its own, the negative path of every one of them.

#[test]
fn customers_check_reports_row_count() {
    let rows = vec![customer(1, "A B", 1)];
    assert_eq!(check_contracts_customers(&rows, 5), Err(Contract::RowCountExact));
}

#[test]
fn customers_check_reports_missing_rows_for_positive_limit() {
    let rows: Vec<TopCustomer> = Vec::new();
    assert_eq!(check_contracts_customers(&rows, 3), Err(Contract::RowCountExact));
}

#[test]
fn customers_check_reports_top_count() {
    let rows = vec![customer(1, "A B", 0)];
    assert_eq!(check_contracts_customers(&rows, 1), Err(Contract::TopRecordHasCount));
}

#[test]
fn customers_check_reports_id() {
    let rows = vec![customer(0, "A B", 1)];
    assert_eq!(check_contracts_customers(&rows, 1), Err(Contract::IdPositive));
}

#[test]
fn customers_check_reports_name_without_space() {
    let rows = vec![customer(1, "AliceWithoutSpace", 1)];
    assert_eq!(
        check_contracts_customers(&rows, 1),
        Err(Contract::StringFieldWellFormed)
    );
}

#[test]
fn customers_check_reports_order() {
    let rows = vec![customer(1, "A B", 1), customer(2, "C D", 5)];
    assert_eq!(check_contracts_customers(&rows, 2), Err(Contract::CountDescending));
}

#[test]
fn customers_check_reports_first_row_fault_first() {
    // Row 0 breaks the name rule, row 1 the key rule: row 0 is checked first.
    let rows = vec![customer(1, "AB", 3), customer(-4, "C D", 2)];
    assert_eq!(
        check_contracts_customers(&rows, 2),
        Err(Contract::StringFieldWellFormed)
    );
    // Within one row the key rule comes before the name rule.
    let rows = vec![customer(0, "AB", 3)];
    assert_eq!(check_contracts_customers(&rows, 1), Err(Contract::IdPositive));
}

#[test]
fn customers_check_row_faults_before_order() {
    let rows = vec![customer(1, "A B", 1), customer(2, "CD", 5)];
    assert_eq!(
        check_contracts_customers(&rows, 2),
        Err(Contract::StringFieldWellFormed)
    );
}

#[test]
fn customers_check_accepts_equal_counts_and_reports_late_rise() {
    let rows = vec![customer(1, "A B", 4), customer(2, "C D", 4), customer(3, "E F", 4)];
    assert_eq!(check_contracts_customers(&rows, 3), Ok(()));
    let rows = vec![customer(1, "A B", 5), customer(2, "C D", 3), customer(3, "E F", 4)];
    assert_eq!(check_contracts_customers(&rows, 3), Err(Contract::CountDescending));
}

#[test]
fn films_check_reports_each_contract() {
    assert_eq!(
        check_contracts_films(&[film(1, "X", 1)], 5),
        Err(Contract::RowCountExact)
    );
    assert_eq!(
        check_contracts_films(&[film(1, "X", 0)], 1),
        Err(Contract::TopRecordHasCount)
    );
    assert_eq!(
        check_contracts_films(&[film(0, "X", 1)], 1),
        Err(Contract::IdPositive)
    );
    assert_eq!(
        check_contracts_films(&[film(1, "", 1)], 1),
        Err(Contract::StringFieldWellFormed)
    );
    assert_eq!(
        check_contracts_films(&[film(1, "X", 1), film(2, "Y", 5)], 2),
        Err(Contract::CountDescending)
    );
}

#[test]
fn actors_check_reports_each_contract() {
    assert_eq!(
        check_contracts_actors(&[actor(1, "A", "B", 1)], 5),
        Err(Contract::RowCountExact)
    );
    assert_eq!(
        check_contracts_actors(&[actor(1, "A", "B", 0)], 1),
        Err(Contract::TopRecordHasCount)
    );
    assert_eq!(
        check_contracts_actors(&[actor(0, "A", "B", 1)], 1),
        Err(Contract::IdPositive)
    );
    assert_eq!(
        check_contracts_actors(&[actor(1, "", "B", 1)], 1),
        Err(Contract::StringFieldWellFormed)
    );
    assert_eq!(
        check_contracts_actors(&[actor(1, "A", "", 1)], 1),
        Err(Contract::StringFieldWellFormed)
    );
    assert_eq!(
        check_contracts_actors(&[actor(1, "A", "B", 1), actor(2, "C", "D", 5)], 2),
        Err(Contract::CountDescending)
    );
}

#[test]
fn contract_labels_name_each_contract() {
    assert_eq!(Contract::RowCountExact.label(), "C1 row_count_exact");
    assert_eq!(Contract::TopRecordHasCount.label(), "C2 top_record_has_count");
    assert_eq!(Contract::IdPositive.label(), "C3 id_positive");
    assert_eq!(Contract::StringFieldWellFormed.label(), "C4 string_field_well_formed");
    assert_eq!(Contract::CountDescending.label(), "C5 count_descending");
}

#[test]
fn customer_sql_text_is_exact() {
    assert_eq!(
        build_customer_sql("/d"),
        "SELECT c.customer_id, c.first_name || ' ' || c.last_name AS name, \
         COUNT(r.rental_id) AS rental_count, c.email \
         FROM '/d/customer.parquet' c \
         LEFT JOIN '/d/rental.parquet' r ON r.customer_id = c.customer_id \
         GROUP BY c.customer_id, c.first_name, c.last_name, c.email \
         ORDER BY rental_count DESC \
         LIMIT ?"
    );
}

#[test]
fn film_sql_text_is_exact() {
    assert_eq!(
        build_film_sql("/d"),
        "SELECT f.film_id, f.title, COUNT(r.rental_id) AS rental_count \
         FROM '/d/film.parquet' f \
         LEFT JOIN '/d/inventory.parquet' i ON i.film_id = f.film_id \
         LEFT JOIN '/d/rental.parquet'    r ON r.inventory_id = i.inventory_id \
         GROUP BY f.film_id, f.title \
         ORDER BY rental_count DESC \
         LIMIT ?"
    );
}

#[test]
fn actor_sql_text_is_exact() {
    assert_eq!(
        build_actor_sql("/d"),
        "SELECT a.actor_id, a.first_name, a.last_name, \
         COUNT(DISTINCT fa.film_id) AS film_count \
         FROM '/d/actor.parquet' a \
         LEFT JOIN '/d/film_actor.parquet' fa ON fa.actor_id = a.actor_id \
         GROUP BY a.actor_id, a.first_name, a.last_name \
         ORDER BY film_count DESC \
         LIMIT ?"
    );
}

#[test]
fn resolve_fallback_is_exact() {
    let r = resolve_pagila_root("/imaginary/crates/foo", |_| false);
    assert_eq!(r, "/imaginary/crates/foo/../../data/pagila");
    let r = resolve_pagila_root("/imaginary/crates/foo/", |_| false);
    assert_eq!(r, "/imaginary/crates/foo/../../data/pagila");
    let r = resolve_pagila_root("", |_| false);
    assert_eq!(r, "../../data/pagila");
}

#[test]
fn resolve_probes_the_customer_file() {
    let r = resolve_pagila_root("/m", |p| p == "data/pagila/customer.parquet");
    assert_eq!(r, "data/pagila");
    let r = resolve_pagila_root("/m", |p| p != "data/pagila/customer.parquet");
    assert_eq!(r, "/m/../../data/pagila");
}

#[test]
fn pagila_root_picks_one_of_the_two_places() {
    let r = pagila_root("/imaginary/crates/foo");
    assert!(r == "data/pagila" || r == "/imaginary/crates/foo/../../data/pagila");
    // The tests run in a directory without the fixtures.
    if !std::path::Path::new("data/pagila/customer.parquet").exists() {
        assert_eq!(r, "/imaginary/crates/foo/../../data/pagila");
    }
}

#[test]
fn empty_result_for_zero_limit_has_no_top_record() {
    let none_c: Vec<TopCustomer> = Vec::new();
    assert_eq!(check_contracts_customers(&none_c, 0), Err(Contract::TopRecordHasCount));
    let none_f: Vec<TopFilm> = Vec::new();
    assert_eq!(check_contracts_films(&none_f, 0), Err(Contract::TopRecordHasCount));
    let none_a: Vec<TopActor> = Vec::new();
    assert_eq!(check_contracts_actors(&none_a, 0), Err(Contract::TopRecordHasCount));
}

#[test]
fn customers_check_ignores_email() {
    let mut rows = vec![customer(1, "A B", 2), customer(2, "C D", 1)];
    assert_eq!(check_contracts_customers(&rows, 2), Ok(()));
    rows[0].email = Some("a@example.org".to_string());
    assert_eq!(check_contracts_customers(&rows, 2), Ok(()));
    rows[1].name = "CD".to_string();
    let verdict = check_contracts_customers(&rows, 2);
    rows[1].email = Some("c@example.org".to_string());
    assert_eq!(check_contracts_customers(&rows, 2), verdict);
}

#[test]
fn breach_messages_follow_each_report() {
    assert_eq!(
        breach_message(Report::Customers, Contract::RowCountExact),
        "C1 row_count_exact: rows.len() == limit"
    );
    assert_eq!(
        breach_message(Report::Customers, Contract::TopRecordHasCount),
        "C2 top_record_has_count: rows[0].rental_count >= 1"
    );
    assert_eq!(
        breach_message(Report::Customers, Contract::IdPositive),
        "C3 id_positive: customer_id > 0"
    );
    assert_eq!(
        breach_message(Report::Customers, Contract::StringFieldWellFormed),
        "C4 string_field_well_formed: name contains space"
    );
    assert_eq!(
        breach_message(Report::Customers, Contract::CountDescending),
        "C5 count_descending: rental_count monotonically non-increasing"
    );
    assert_eq!(breach_message(Report::Films, Contract::RowCountExact), "C1 row_count_exact");
    assert_eq!(breach_message(Report::Films, Contract::IdPositive), "C3 id_positive: film_id > 0");
    assert_eq!(
        breach_message(Report::Films, Contract::StringFieldWellFormed),
        "C4 string_field_well_formed: title"
    );
    assert_eq!(breach_message(Report::Films, Contract::CountDescending), "C5 count_descending");
    assert_eq!(
        breach_message(Report::Actors, Contract::TopRecordHasCount),
        "C2 top_record_has_count"
    );
    assert_eq!(breach_message(Report::Actors, Contract::IdPositive), "C3 id_positive: actor_id > 0");
    assert_eq!(
        breach_message(Report::Actors, Contract::StringFieldWellFormed),
        "C4 string_field_well_formed: first_name + last_name"
    );
}
