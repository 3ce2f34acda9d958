//! SQL text of the three reports. Each query reads Parquet files from one
//! fixture directory and ends with a `LIMIT ?` placeholder that the runner binds.

use vstd::prelude::*;

verus! {

/// The placeholder every report query ends with; the runner binds the row limit to it.
pub const LIMIT_PLACEHOLDER: &'static str = "LIMIT ?";

pub const CUSTOMER_SELECT: &'static str = "SELECT c.customer_id, c.first_name || ' ' || c.last_name AS name, COUNT(r.rental_id) AS rental_count, c.email FROM ";
pub const CUSTOMER_JOIN: &'static str = " c LEFT JOIN ";
pub const CUSTOMER_REST: &'static str = " r ON r.customer_id = c.customer_id GROUP BY c.customer_id, c.first_name, c.last_name, c.email ORDER BY rental_count DESC ";

pub const FILM_SELECT: &'static str = "SELECT f.film_id, f.title, COUNT(r.rental_id) AS rental_count FROM ";
pub const FILM_JOIN_INVENTORY: &'static str = " f LEFT JOIN ";
pub const FILM_JOIN_RENTAL: &'static str = " i ON i.film_id = f.film_id LEFT JOIN ";
pub const FILM_REST: &'static str = "    r ON r.inventory_id = i.inventory_id GROUP BY f.film_id, f.title ORDER BY rental_count DESC ";

pub const ACTOR_SELECT: &'static str = "SELECT a.actor_id, a.first_name, a.last_name, COUNT(DISTINCT fa.film_id) AS film_count FROM ";
pub const ACTOR_JOIN: &'static str = " a LEFT JOIN ";
pub const ACTOR_REST: &'static str = " fa ON fa.actor_id = a.actor_id GROUP BY a.actor_id, a.first_name, a.last_name ORDER BY film_count DESC ";

/// `s` holds `t` as a contiguous run of characters.
pub open spec fn has_infix(s: Seq<char>, t: Seq<char>) -> bool {
    exists|i: int| 0 <= i && i + t.len() <= s.len() && (#[trigger] s.skip(i)).take(t.len() as int) == t
}

/// `s` ends with `t`.
pub open spec fn has_suffix(s: Seq<char>, t: Seq<char>) -> bool {
    t.len() <= s.len() && s.subrange(s.len() - t.len(), s.len() as int) == t
}

/// The quoted reference `'<dir>/<table>.parquet'` to one Parquet file of the fixture directory.
pub open spec fn parquet_ref(dir: Seq<char>, table: Seq<char>) -> Seq<char> {
    "'"@ + dir + "/"@ + table + ".parquet'"@
}

/// Text of the top-customers query for fixture directory `dir`.
pub open spec fn customer_sql(dir: Seq<char>) -> Seq<char> {
    CUSTOMER_SELECT@ + parquet_ref(dir, "customer"@) + CUSTOMER_JOIN@ + parquet_ref(dir, "rental"@)
        + CUSTOMER_REST@ + LIMIT_PLACEHOLDER@
}

/// Text of the top-films query for fixture directory `dir`.
pub open spec fn film_sql(dir: Seq<char>) -> Seq<char> {
    FILM_SELECT@ + parquet_ref(dir, "film"@) + FILM_JOIN_INVENTORY@ + parquet_ref(dir, "inventory"@)
        + FILM_JOIN_RENTAL@ + parquet_ref(dir, "rental"@) + FILM_REST@ + LIMIT_PLACEHOLDER@
}

/// Text of the top-actors query for fixture directory `dir`.
pub open spec fn actor_sql(dir: Seq<char>) -> Seq<char> {
    ACTOR_SELECT@ + parquet_ref(dir, "actor"@) + ACTOR_JOIN@ + parquet_ref(dir, "film_actor"@)
        + ACTOR_REST@ + LIMIT_PLACEHOLDER@
}

/// The top-customers query, whatever the directory: the customer file and the
/// rental file of `dir`, left-joined on the customer key, grouped per customer,
/// ordered by rental count from highest to lowest, and cut at the bound limit.
pub proof fn lemma_customer_sql_text(dir: Seq<char>)
    ensures
        customer_sql(dir) == "SELECT c.customer_id, c.first_name || ' ' || c.last_name AS name, COUNT(r.rental_id) AS rental_count, c.email FROM '"@
            + dir + "/customer.parquet' c LEFT JOIN '"@ + dir
            + "/rental.parquet' r ON r.customer_id = c.customer_id GROUP BY c.customer_id, c.first_name, c.last_name, c.email ORDER BY rental_count DESC LIMIT ?"@,
        has_suffix(customer_sql(dir), "ORDER BY rental_count DESC LIMIT ?"@),
{
    reveal_strlit("SELECT c.customer_id, c.first_name || ' ' || c.last_name AS name, COUNT(r.rental_id) AS rental_count, c.email FROM ");
    reveal_strlit(" c LEFT JOIN ");
    reveal_strlit(" r ON r.customer_id = c.customer_id GROUP BY c.customer_id, c.first_name, c.last_name, c.email ORDER BY rental_count DESC ");
    reveal_strlit("LIMIT ?");
    reveal_strlit("'");
    reveal_strlit("/");
    reveal_strlit(".parquet'");
    reveal_strlit("customer");
    reveal_strlit("rental");
    reveal_strlit("SELECT c.customer_id, c.first_name || ' ' || c.last_name AS name, COUNT(r.rental_id) AS rental_count, c.email FROM '");
    reveal_strlit("/customer.parquet' c LEFT JOIN '");
    reveal_strlit("/rental.parquet' r ON r.customer_id = c.customer_id GROUP BY c.customer_id, c.first_name, c.last_name, c.email ORDER BY rental_count DESC LIMIT ?");
    reveal_strlit("ORDER BY rental_count DESC LIMIT ?");
    let a = "SELECT c.customer_id, c.first_name || ' ' || c.last_name AS name, COUNT(r.rental_id) AS rental_count, c.email FROM '"@;
    let b = "/customer.parquet' c LEFT JOIN '"@;
    let c = "/rental.parquet' r ON r.customer_id = c.customer_id GROUP BY c.customer_id, c.first_name, c.last_name, c.email ORDER BY rental_count DESC LIMIT ?"@;
    assert(a =~= CUSTOMER_SELECT@ + "'"@);
    assert(b =~= "/"@ + "customer"@ + ".parquet'"@ + CUSTOMER_JOIN@ + "'"@);
    assert(c =~= "/"@ + "rental"@ + ".parquet'"@ + CUSTOMER_REST@ + LIMIT_PLACEHOLDER@);
    assert(customer_sql(dir) =~= a + dir + b + dir + c);
    let t = "ORDER BY rental_count DESC LIMIT ?"@;
    let s = a + dir + b + dir + c;
    assert(s.subrange(s.len() - t.len(), s.len() as int) =~= c.subrange(c.len() - t.len(), c.len() as int));
    assert(c.subrange(c.len() - t.len(), c.len() as int) =~= t);
}

/// The top-films query, whatever the directory: the film, inventory and rental
/// files of `dir`, films left-joined to inventory on the film key and inventory
/// to rentals on the inventory key, grouped per film, ordered by rental count
/// from highest to lowest, and cut at the bound limit.
pub proof fn lemma_film_sql_text(dir: Seq<char>)
    ensures
        film_sql(dir) == "SELECT f.film_id, f.title, COUNT(r.rental_id) AS rental_count FROM '"@ + dir
            + "/film.parquet' f LEFT JOIN '"@ + dir + "/inventory.parquet' i ON i.film_id = f.film_id LEFT JOIN '"@
            + dir
            + "/rental.parquet'    r ON r.inventory_id = i.inventory_id GROUP BY f.film_id, f.title ORDER BY rental_count DESC LIMIT ?"@,
        has_suffix(film_sql(dir), "ORDER BY rental_count DESC LIMIT ?"@),
{
    reveal_strlit("SELECT f.film_id, f.title, COUNT(r.rental_id) AS rental_count FROM ");
    reveal_strlit(" f LEFT JOIN ");
    reveal_strlit(" i ON i.film_id = f.film_id LEFT JOIN ");
    reveal_strlit("    r ON r.inventory_id = i.inventory_id GROUP BY f.film_id, f.title ORDER BY rental_count DESC ");
    reveal_strlit("LIMIT ?");
    reveal_strlit("'");
    reveal_strlit("/");
    reveal_strlit(".parquet'");
    reveal_strlit("film");
    reveal_strlit("inventory");
    reveal_strlit("rental");
    reveal_strlit("SELECT f.film_id, f.title, COUNT(r.rental_id) AS rental_count FROM '");
    reveal_strlit("/film.parquet' f LEFT JOIN '");
    reveal_strlit("/inventory.parquet' i ON i.film_id = f.film_id LEFT JOIN '");
    reveal_strlit("/rental.parquet'    r ON r.inventory_id = i.inventory_id GROUP BY f.film_id, f.title ORDER BY rental_count DESC LIMIT ?");
    reveal_strlit("ORDER BY rental_count DESC LIMIT ?");
    let a = "SELECT f.film_id, f.title, COUNT(r.rental_id) AS rental_count FROM '"@;
    let b = "/film.parquet' f LEFT JOIN '"@;
    let c = "/inventory.parquet' i ON i.film_id = f.film_id LEFT JOIN '"@;
    let d = "/rental.parquet'    r ON r.inventory_id = i.inventory_id GROUP BY f.film_id, f.title ORDER BY rental_count DESC LIMIT ?"@;
    assert(a =~= FILM_SELECT@ + "'"@);
    assert(b =~= "/"@ + "film"@ + ".parquet'"@ + FILM_JOIN_INVENTORY@ + "'"@);
    assert(c =~= "/"@ + "inventory"@ + ".parquet'"@ + FILM_JOIN_RENTAL@ + "'"@);
    assert(d =~= "/"@ + "rental"@ + ".parquet'"@ + FILM_REST@ + LIMIT_PLACEHOLDER@);
    assert(film_sql(dir) =~= a + dir + b + dir + c + dir + d);
    let t = "ORDER BY rental_count DESC LIMIT ?"@;
    let s = a + dir + b + dir + c + dir + d;
    assert(s.subrange(s.len() - t.len(), s.len() as int) =~= d.subrange(d.len() - t.len(), d.len() as int));
    assert(d.subrange(d.len() - t.len(), d.len() as int) =~= t);
}

/// The top-actors query, whatever the directory: the actor file and the
/// film-actor file of `dir`, left-joined on the actor key, grouped per actor
/// with distinct films counted, ordered by that count from highest to lowest,
/// and cut at the bound limit.
pub proof fn lemma_actor_sql_text(dir: Seq<char>)
    ensures
        actor_sql(dir) == "SELECT a.actor_id, a.first_name, a.last_name, COUNT(DISTINCT fa.film_id) AS film_count FROM '"@
            + dir + "/actor.parquet' a LEFT JOIN '"@ + dir
            + "/film_actor.parquet' fa ON fa.actor_id = a.actor_id GROUP BY a.actor_id, a.first_name, a.last_name ORDER BY film_count DESC LIMIT ?"@,
        has_suffix(actor_sql(dir), "ORDER BY film_count DESC LIMIT ?"@),
{
    reveal_strlit("SELECT a.actor_id, a.first_name, a.last_name, COUNT(DISTINCT fa.film_id) AS film_count FROM ");
    reveal_strlit(" a LEFT JOIN ");
    reveal_strlit(" fa ON fa.actor_id = a.actor_id GROUP BY a.actor_id, a.first_name, a.last_name ORDER BY film_count DESC ");
    reveal_strlit("LIMIT ?");
    reveal_strlit("'");
    reveal_strlit("/");
    reveal_strlit(".parquet'");
    reveal_strlit("actor");
    reveal_strlit("film_actor");
    reveal_strlit("SELECT a.actor_id, a.first_name, a.last_name, COUNT(DISTINCT fa.film_id) AS film_count FROM '");
    reveal_strlit("/actor.parquet' a LEFT JOIN '");
    reveal_strlit("/film_actor.parquet' fa ON fa.actor_id = a.actor_id GROUP BY a.actor_id, a.first_name, a.last_name ORDER BY film_count DESC LIMIT ?");
    reveal_strlit("ORDER BY film_count DESC LIMIT ?");
    let a = "SELECT a.actor_id, a.first_name, a.last_name, COUNT(DISTINCT fa.film_id) AS film_count FROM '"@;
    let b = "/actor.parquet' a LEFT JOIN '"@;
    let c = "/film_actor.parquet' fa ON fa.actor_id = a.actor_id GROUP BY a.actor_id, a.first_name, a.last_name ORDER BY film_count DESC LIMIT ?"@;
    assert(a =~= ACTOR_SELECT@ + "'"@);
    assert(b =~= "/"@ + "actor"@ + ".parquet'"@ + ACTOR_JOIN@ + "'"@);
    assert(c =~= "/"@ + "film_actor"@ + ".parquet'"@ + ACTOR_REST@ + LIMIT_PLACEHOLDER@);
    assert(actor_sql(dir) =~= a + dir + b + dir + c);
    let t = "ORDER BY film_count DESC LIMIT ?"@;
    let s = a + dir + b + dir + c;
    assert(s.subrange(s.len() - t.len(), s.len() as int) =~= c.subrange(c.len() - t.len(), c.len() as int));
    assert(c.subrange(c.len() - t.len(), c.len() as int) =~= t);
}

/// A sequence placed between two others is an infix of the whole.
proof fn lemma_infix(a: Seq<char>, t: Seq<char>, b: Seq<char>)
    ensures
        has_infix(a + t + b, t),
{
    let s = a + t + b;
    assert(s.skip(a.len() as int).take(t.len() as int) =~= t);
}

/// A sequence that ends a concatenation is a suffix of it.
proof fn lemma_suffix(a: Seq<char>, t: Seq<char>)
    ensures
        has_suffix(a + t, t),
{
    let s = a + t;
    assert(s.subrange(s.len() - t.len(), s.len() as int) =~= t);
}

/// Builds `'<dir>/<table>.parquet'`.
fn quoted_parquet(dir: &str, table: &str) -> (r: String)
    ensures
        r@ == parquet_ref(dir@, table@),
{
    let mut r = String::from_str("'");
    r.append(dir);
    r.append("/");
    r.append(table);
    r.append(".parquet'");
    r
}

/// Joins `customer.parquet` with `rental.parquet` in `dir`, counts rentals
/// per customer and orders by that count, highest first.
pub fn build_customer_sql(dir: &str) -> (r: String)
    ensures
        r@ == customer_sql(dir@),
        has_infix(r@, parquet_ref(dir@, "customer"@)),
        has_infix(r@, parquet_ref(dir@, "rental"@)),
        has_suffix(r@, LIMIT_PLACEHOLDER@),
        r@ == "SELECT c.customer_id, c.first_name || ' ' || c.last_name AS name, COUNT(r.rental_id) AS rental_count, c.email FROM '"@
            + dir@ + "/customer.parquet' c LEFT JOIN '"@ + dir@
            + "/rental.parquet' r ON r.customer_id = c.customer_id GROUP BY c.customer_id, c.first_name, c.last_name, c.email ORDER BY rental_count DESC LIMIT ?"@,
        has_suffix(r@, "ORDER BY rental_count DESC LIMIT ?"@),
{
    proof {
        lemma_customer_sql_text(dir@);
    }
    let mut r = String::from_str(CUSTOMER_SELECT);
    r.append(quoted_parquet(dir, "customer").as_str());
    r.append(CUSTOMER_JOIN);
    r.append(quoted_parquet(dir, "rental").as_str());
    r.append(CUSTOMER_REST);
    r.append(LIMIT_PLACEHOLDER);
    proof {
        let customer = parquet_ref(dir@, "customer"@);
        let rental = parquet_ref(dir@, "rental"@);
        let s = customer_sql(dir@);
        lemma_infix(CUSTOMER_SELECT@, customer, CUSTOMER_JOIN@ + rental + CUSTOMER_REST@ + LIMIT_PLACEHOLDER@);
        assert(CUSTOMER_SELECT@ + customer + (CUSTOMER_JOIN@ + rental + CUSTOMER_REST@ + LIMIT_PLACEHOLDER@) =~= s);
        lemma_infix(CUSTOMER_SELECT@ + customer + CUSTOMER_JOIN@, rental, CUSTOMER_REST@ + LIMIT_PLACEHOLDER@);
        assert(CUSTOMER_SELECT@ + customer + CUSTOMER_JOIN@ + rental + (CUSTOMER_REST@ + LIMIT_PLACEHOLDER@) =~= s);
        lemma_suffix(CUSTOMER_SELECT@ + customer + CUSTOMER_JOIN@ + rental + CUSTOMER_REST@, LIMIT_PLACEHOLDER@);
    }
    r
}

/// Joins `film.parquet` through `inventory.parquet` to `rental.parquet` in
/// `dir`, counts rentals per film and orders by that count, highest first.
pub fn build_film_sql(dir: &str) -> (r: String)
    ensures
        r@ == film_sql(dir@),
        has_infix(r@, parquet_ref(dir@, "film"@)),
        has_infix(r@, parquet_ref(dir@, "inventory"@)),
        has_infix(r@, parquet_ref(dir@, "rental"@)),
        has_suffix(r@, LIMIT_PLACEHOLDER@),
        r@ == "SELECT f.film_id, f.title, COUNT(r.rental_id) AS rental_count FROM '"@ + dir@
            + "/film.parquet' f LEFT JOIN '"@ + dir@ + "/inventory.parquet' i ON i.film_id = f.film_id LEFT JOIN '"@
            + dir@
            + "/rental.parquet'    r ON r.inventory_id = i.inventory_id GROUP BY f.film_id, f.title ORDER BY rental_count DESC LIMIT ?"@,
        has_suffix(r@, "ORDER BY rental_count DESC LIMIT ?"@),
{
    proof {
        lemma_film_sql_text(dir@);
    }
    let mut r = String::from_str(FILM_SELECT);
    r.append(quoted_parquet(dir, "film").as_str());
    r.append(FILM_JOIN_INVENTORY);
    r.append(quoted_parquet(dir, "inventory").as_str());
    r.append(FILM_JOIN_RENTAL);
    r.append(quoted_parquet(dir, "rental").as_str());
    r.append(FILM_REST);
    r.append(LIMIT_PLACEHOLDER);
    proof {
        let film = parquet_ref(dir@, "film"@);
        let inventory = parquet_ref(dir@, "inventory"@);
        let rental = parquet_ref(dir@, "rental"@);
        let s = film_sql(dir@);
        let tail = FILM_REST@ + LIMIT_PLACEHOLDER@;
        lemma_infix(FILM_SELECT@, film, FILM_JOIN_INVENTORY@ + inventory + FILM_JOIN_RENTAL@ + rental + tail);
        assert(FILM_SELECT@ + film + (FILM_JOIN_INVENTORY@ + inventory + FILM_JOIN_RENTAL@ + rental + tail) =~= s);
        lemma_infix(FILM_SELECT@ + film + FILM_JOIN_INVENTORY@, inventory, FILM_JOIN_RENTAL@ + rental + tail);
        assert(FILM_SELECT@ + film + FILM_JOIN_INVENTORY@ + inventory + (FILM_JOIN_RENTAL@ + rental + tail) =~= s);
        lemma_infix(FILM_SELECT@ + film + FILM_JOIN_INVENTORY@ + inventory + FILM_JOIN_RENTAL@, rental, tail);
        assert(FILM_SELECT@ + film + FILM_JOIN_INVENTORY@ + inventory + FILM_JOIN_RENTAL@ + rental + tail =~= s);
        lemma_suffix(FILM_SELECT@ + film + FILM_JOIN_INVENTORY@ + inventory + FILM_JOIN_RENTAL@ + rental + FILM_REST@, LIMIT_PLACEHOLDER@);
    }
    r
}

/// Joins `actor.parquet` with `film_actor.parquet` in `dir`, counts distinct
/// films per actor and orders by that count, highest first.
pub fn build_actor_sql(dir: &str) -> (r: String)
    ensures
        r@ == actor_sql(dir@),
        has_infix(r@, parquet_ref(dir@, "actor"@)),
        has_infix(r@, parquet_ref(dir@, "film_actor"@)),
        has_suffix(r@, LIMIT_PLACEHOLDER@),
        r@ == "SELECT a.actor_id, a.first_name, a.last_name, COUNT(DISTINCT fa.film_id) AS film_count FROM '"@
            + dir@ + "/actor.parquet' a LEFT JOIN '"@ + dir@
            + "/film_actor.parquet' fa ON fa.actor_id = a.actor_id GROUP BY a.actor_id, a.first_name, a.last_name ORDER BY film_count DESC LIMIT ?"@,
        has_suffix(r@, "ORDER BY film_count DESC LIMIT ?"@),
{
    proof {
        lemma_actor_sql_text(dir@);
    }
    let mut r = String::from_str(ACTOR_SELECT);
    r.append(quoted_parquet(dir, "actor").as_str());
    r.append(ACTOR_JOIN);
    r.append(quoted_parquet(dir, "film_actor").as_str());
    r.append(ACTOR_REST);
    r.append(LIMIT_PLACEHOLDER);
    proof {
        let actor = parquet_ref(dir@, "actor"@);
        let film_actor = parquet_ref(dir@, "film_actor"@);
        let s = actor_sql(dir@);
        lemma_infix(ACTOR_SELECT@, actor, ACTOR_JOIN@ + film_actor + ACTOR_REST@ + LIMIT_PLACEHOLDER@);
        assert(ACTOR_SELECT@ + actor + (ACTOR_JOIN@ + film_actor + ACTOR_REST@ + LIMIT_PLACEHOLDER@) =~= s);
        lemma_infix(ACTOR_SELECT@ + actor + ACTOR_JOIN@, film_actor, ACTOR_REST@ + LIMIT_PLACEHOLDER@);
        assert(ACTOR_SELECT@ + actor + ACTOR_JOIN@ + film_actor + (ACTOR_REST@ + LIMIT_PLACEHOLDER@) =~= s);
        lemma_suffix(ACTOR_SELECT@ + actor + ACTOR_JOIN@ + film_actor + ACTOR_REST@, LIMIT_PLACEHOLDER@);
    }
    r
}

} // verus!
