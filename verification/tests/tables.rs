//! Every table takes a row column by column.

use native_core::chatroom::{
    init_chatroom_member_table, mark_chatroom_member_left, member_ref_from_row,
    query_chatroom_members_in_group, upsert_chatroom_member_add, ChatroomMemberRef,
    V3ChatroomMember,
};
use native_core::contact::{
    init_avatar_image_table, init_bizchat_user_table, init_friend_verify_table, insert_avatar_image,
    insert_bizchat_user, insert_friend_verify, V3AvatarImage, V3BizchatUser, V3FriendVerify,
};
use native_core::favorite::{init_custom_emoticon_table, insert_custom_emoticon, V3CustomEmoticon};
use native_core::index::{reconcile_index, IndexLookup, Reconcile};
use native_core::message::{
    delete_message_call, delete_message_card, delete_message_forward_items,
    delete_message_hongbao_claim, init_message_call_table, init_message_card_table,
    init_message_forward_item_table, init_message_hongbao_claim_table, insert_message_call,
    insert_message_card, insert_message_forward_item, insert_message_hongbao_claim, V3MessageCall,
    V3MessageCard, V3MessageForwardItem, V3MessageHongbaoClaim,
};
use native_core::moment::{
    init_finder_visit_table, init_moment_feed_table, init_sns_notify_table, insert_finder_visit,
    insert_moment_feed, insert_sns_notify, V3FinderVisit, V3MomentFeed, V3SnsNotify,
};
use native_core::payment::{
    init_group_pay_table, init_red_envelope_table, init_transfer_table, insert_group_pay,
    insert_red_envelope, insert_transfer, V3GroupPay, V3RedEnvelope, V3Transfer,
};
use native_core::plan::Step;
use native_core::redact::{DebugRow, Wanted};
use native_core::sql::{Real, SqlValue, Statement};
use rusqlite::types::Value;
use rusqlite::{params_from_iter, Connection, OptionalExtension};

/// A value as the database takes it.
fn bound(value: &SqlValue) -> Value {
    match value {
        SqlValue::Null => Value::Null,
        SqlValue::Integer(n) => Value::Integer(*n),
        SqlValue::Real(r) => Value::Real(f64::from_bits(r.bits)),
        SqlValue::Text(t) => Value::Text(t.clone()),
        SqlValue::Blob(b) => Value::Blob(b.clone()),
    }
}

/// A value as the database gave it.
fn given(value: Value) -> SqlValue {
    match value {
        Value::Null => SqlValue::Null,
        Value::Integer(n) => SqlValue::Integer(n),
        Value::Real(r) => SqlValue::Real(Real { bits: r.to_bits() }),
        Value::Text(t) => SqlValue::Text(t),
        Value::Blob(b) => SqlValue::Blob(b),
    }
}

/// Runs a statement and says how many rows it changed.
fn run(conn: &Connection, statement: &Statement) -> rusqlite::Result<usize> {
    if statement.params.is_empty() {
        conn.execute_batch(&statement.sql)?;
        Ok(0)
    } else {
        conn.execute(&statement.sql, params_from_iter(statement.params.iter().map(bound)))
    }
}

fn all(conn: &Connection, statements: &[Statement]) -> rusqlite::Result<()> {
    for statement in statements {
        run(conn, statement)?;
    }
    Ok(())
}

fn columns_of(conn: &Connection, table: &str) -> rusqlite::Result<Vec<String>> {
    conn.prepare(&format!("PRAGMA table_info({table})"))?
        .query_map([], |r| r.get::<_, String>(1))?
        .collect()
}

/// Brings an index to its definition, and says whether it was made anew.
fn settle(conn: &Connection, name: &str, create_sql: &str) -> rusqlite::Result<bool> {
    let found: Option<Option<String>> = conn
        .query_row(
            "SELECT sql FROM sqlite_master WHERE type='index' AND name=?1",
            [name],
            |r| r.get(0),
        )
        .optional()?;
    let lookup = match found {
        None => IndexLookup::Absent,
        Some(None) => IndexLookup::Automatic,
        Some(Some(sql)) => IndexLookup::Defined(sql),
    };
    let todo = reconcile_index(name, create_sql, &lookup);
    match &todo {
        Reconcile::Keep => {}
        Reconcile::Create { run } => conn.execute_batch(run)?,
        Reconcile::Rebuild { run, undo } => {
            if let Err(error) = conn.execute_batch(run) {
                let _ = conn.execute_batch(undo);
                return Err(error);
            }
        }
    }
    Ok(todo.rebuilds())
}

/// Carries out the steps that make tables.
fn apply(conn: &Connection, steps: &[Step]) -> rusqlite::Result<()> {
    for step in steps {
        if let Some(statement) = step.statement() {
            run(conn, &statement)?;
        }
        match step {
            Step::Ensure(table) => {
                all(conn, &table.ensure_columns(&columns_of(conn, table.name())?))?;
            }
            Step::Reconcile(index) => {
                settle(conn, index.name, &index.create())?;
            }
            _ => {}
        }
    }
    Ok(())
}

/// A database with the tables that the steps make.
fn made(steps: &[Step]) -> Connection {
    let conn = Connection::open_in_memory().unwrap();
    apply(&conn, steps).unwrap();
    conn
}

/// All rows of a query.
fn rows_of(conn: &Connection, query: &Statement) -> Vec<Vec<SqlValue>> {
    let mut prepared = conn.prepare(&query.sql).unwrap();
    let width = prepared.column_count();
    let found = prepared
        .query_map(params_from_iter(query.params.iter().map(bound)), |r| {
            let mut values = Vec::new();
            for i in 0..width {
                values.push(given(r.get::<_, Value>(i)?));
            }
            Ok(values)
        })
        .unwrap();
    found.map(Result::unwrap).collect()
}

fn rows(conn: &Connection, sql: &str) -> Vec<Vec<SqlValue>> {
    rows_of(
        conn,
        &Statement {
            sql: sql.to_string(),
            params: Vec::new(),
        },
    )
}

fn text(text: &str) -> SqlValue {
    SqlValue::Text(text.to_string())
}

/// What a row shows of itself in a log, with the length in place of each hidden text.
fn logged(row: &DebugRow) -> String {
    let made: Vec<String> = row
        .wanted()
        .iter()
        .map(|wanted| match wanted {
            Wanted::Digest(text) => text.len().to_string(),
            _ => String::new(),
        })
        .collect();
    row.text(&made)
}

#[test]
fn friend_verify_row_is_stored_column_by_column() {
    let conn = made(&init_friend_verify_table());
    let row = V3FriendVerify {
        account_id_sha: "account_id_sha of it".to_string(),
        source: "source of it".to_string(),
        source_native_id: "source_native_id of it".to_string(),
        user_name_sha: "user_name_sha of it".to_string(),
        friend_type: 104,
        timestamp: 105,
        is_sender: 106,
        scene: 107,
        content_len: 108,
        account_id: "account_id of it".to_string(),
        user_name: "user_name of it".to_string(),
        content: "content of it".to_string(),
    };
    run(&conn, &insert_friend_verify(&row)).unwrap();
    run(&conn, &insert_friend_verify(&row)).unwrap();
    assert_eq!(
        rows(
            &conn,
            "SELECT account_id_sha, source, source_native_id, user_name_sha, friend_type, timestamp,
             is_sender, scene, content_len, account_id, user_name, content
             FROM friend_verify",
        ),
        vec![vec![
            text("account_id_sha of it"),
            text("source of it"),
            text("source_native_id of it"),
            text("user_name_sha of it"),
            SqlValue::Integer(104),
            SqlValue::Integer(105),
            SqlValue::Integer(106),
            SqlValue::Integer(107),
            SqlValue::Integer(108),
            text("account_id of it"),
            text("user_name of it"),
            text("content of it"),
        ]]
    );
    let log = logged(&row.debug_row());
    for hidden in [
        "\"account_id of it\"",
    ] {
        assert!(!log.contains(hidden));
    }
    assert!(log.contains("\"account_id_sha of it\""));
}

#[test]
fn bizchat_user_row_is_stored_column_by_column() {
    let conn = made(&init_bizchat_user_table());
    let row = V3BizchatUser {
        account_id_sha: "account_id_sha of it".to_string(),
        source: "source of it".to_string(),
        source_native_id: "source_native_id of it".to_string(),
        user_id_sha: "user_id_sha of it".to_string(),
        brand_user_name: "brand_user_name of it".to_string(),
        user_name: "user_name of it".to_string(),
        account_id: "account_id of it".to_string(),
        user_id: "user_id of it".to_string(),
        head_img_url: "head_img_url of it".to_string(),
        profile_url: "profile_url of it".to_string(),
        bit_flag: 110,
    };
    run(&conn, &insert_bizchat_user(&row)).unwrap();
    run(&conn, &insert_bizchat_user(&row)).unwrap();
    assert_eq!(
        rows(
            &conn,
            "SELECT account_id_sha, source, source_native_id, user_id_sha, brand_user_name, user_name,
             account_id, user_id, head_img_url, profile_url, bit_flag
             FROM bizchat_user",
        ),
        vec![vec![
            text("account_id_sha of it"),
            text("source of it"),
            text("source_native_id of it"),
            text("user_id_sha of it"),
            text("brand_user_name of it"),
            text("user_name of it"),
            text("account_id of it"),
            text("user_id of it"),
            text("head_img_url of it"),
            text("profile_url of it"),
            SqlValue::Integer(110),
        ]]
    );
    let log = logged(&row.debug_row());
    for hidden in [
        "\"user_name of it\"",
        "\"account_id of it\"",
        "\"user_id of it\"",
    ] {
        assert!(!log.contains(hidden));
    }
    assert!(log.contains("\"account_id_sha of it\""));
}

#[test]
fn avatar_image_row_is_stored_column_by_column() {
    let conn = made(&init_avatar_image_table());
    let row = V3AvatarImage {
        account_id_sha: "account_id_sha of it".to_string(),
        source: "source of it".to_string(),
        source_native_id: "source_native_id of it".to_string(),
        username_sha: "username_sha of it".to_string(),
        md5: "md5 of it".to_string(),
        account_id: "account_id of it".to_string(),
        username: "username of it".to_string(),
        image_buffer: vec![1, 2, 255],
        update_time: 108,
    };
    run(&conn, &insert_avatar_image(&row)).unwrap();
    run(&conn, &insert_avatar_image(&row)).unwrap();
    assert_eq!(
        rows(
            &conn,
            "SELECT account_id_sha, source, source_native_id, username_sha, md5, account_id, username,
             image_buffer, update_time
             FROM avatar_image",
        ),
        vec![vec![
            text("account_id_sha of it"),
            text("source of it"),
            text("source_native_id of it"),
            text("username_sha of it"),
            text("md5 of it"),
            text("account_id of it"),
            text("username of it"),
            SqlValue::Blob(vec![1, 2, 255]),
            SqlValue::Integer(108),
        ]]
    );
    let log = logged(&row.debug_row());
    for hidden in [
        "\"account_id of it\"",
        "\"username of it\"",
    ] {
        assert!(!log.contains(hidden));
    }
    assert!(log.contains("\"account_id_sha of it\""));
}

#[test]
fn custom_emoticon_row_is_stored_column_by_column() {
    let conn = made(&init_custom_emoticon_table());
    let row = V3CustomEmoticon {
        account_id_sha: "account_id_sha of it".to_string(),
        source: "source of it".to_string(),
        source_native_id: "source_native_id of it".to_string(),
        md5: "md5 of it".to_string(),
        emoticon_type: 104,
        caption: "caption of it".to_string(),
        account_id: "account_id of it".to_string(),
        product_id: "product_id of it".to_string(),
        aes_key: "aes_key of it".to_string(),
        cdn_url: "cdn_url of it".to_string(),
        thumb_url: "thumb_url of it".to_string(),
        tp_url: "tp_url of it".to_string(),
        extern_url: "extern_url of it".to_string(),
        extern_md5: "extern_md5 of it".to_string(),
        encrypt_url: "encrypt_url of it".to_string(),
    };
    run(&conn, &insert_custom_emoticon(&row)).unwrap();
    run(&conn, &insert_custom_emoticon(&row)).unwrap();
    assert_eq!(
        rows(
            &conn,
            "SELECT account_id_sha, source, source_native_id, md5, emoticon_type, caption, account_id,
             product_id, aes_key, cdn_url, thumb_url, tp_url, extern_url, extern_md5,
             encrypt_url
             FROM custom_emoticon",
        ),
        vec![vec![
            text("account_id_sha of it"),
            text("source of it"),
            text("source_native_id of it"),
            text("md5 of it"),
            SqlValue::Integer(104),
            text("caption of it"),
            text("account_id of it"),
            text("product_id of it"),
            text("aes_key of it"),
            text("cdn_url of it"),
            text("thumb_url of it"),
            text("tp_url of it"),
            text("extern_url of it"),
            text("extern_md5 of it"),
            text("encrypt_url of it"),
        ]]
    );
    let log = logged(&row.debug_row());
    for hidden in [
        "\"account_id of it\"",
        "\"aes_key of it\"",
    ] {
        assert!(!log.contains(hidden));
    }
    assert!(log.contains("\"account_id_sha of it\""));
}

#[test]
fn message_call_row_is_stored_column_by_column() {
    let conn = made(&init_message_call_table());
    let row = V3MessageCall {
        account_id_sha: "account_id_sha of it".to_string(),
        source: "source of it".to_string(),
        source_native_id: "source_native_id of it".to_string(),
        invite_type: 103,
        room_type: 104,
        call_state: 105,
        duration: 106,
        account_id: "account_id of it".to_string(),
        display_content: "display_content of it".to_string(),
    };
    run(&conn, &insert_message_call(&row)).unwrap();
    run(&conn, &insert_message_call(&row)).unwrap();
    assert_eq!(
        rows(
            &conn,
            "SELECT account_id_sha, source, source_native_id, invite_type, room_type, call_state,
             duration, account_id, display_content
             FROM message_call",
        ),
        vec![vec![
            text("account_id_sha of it"),
            text("source of it"),
            text("source_native_id of it"),
            SqlValue::Integer(103),
            SqlValue::Integer(104),
            SqlValue::Integer(105),
            SqlValue::Integer(106),
            text("account_id of it"),
            text("display_content of it"),
        ]]
    );
    let log = logged(&row.debug_row());
    for hidden in [
        "\"account_id of it\"",
    ] {
        assert!(!log.contains(hidden));
    }
    assert!(log.contains("\"account_id_sha of it\""));
    run(&conn, &delete_message_call("account_id_sha of it", "source of it", "another")).unwrap();
    assert_eq!(rows(&conn, "SELECT 1 FROM message_call").len(), 1);
    run(&conn, &delete_message_call("account_id_sha of it", "source of it", "source_native_id of it")).unwrap();
    assert_eq!(rows(&conn, "SELECT 1 FROM message_call").len(), 0);
}

#[test]
fn message_hongbao_claim_row_is_stored_column_by_column() {
    let conn = made(&init_message_hongbao_claim_table());
    let row = V3MessageHongbaoClaim {
        account_id_sha: "account_id_sha of it".to_string(),
        source: "source of it".to_string(),
        source_native_id: "source_native_id of it".to_string(),
        send_id: "send_id of it".to_string(),
        is_own_envelope: true,
        account_id: "account_id of it".to_string(),
        peer_name: "peer_name of it".to_string(),
    };
    run(&conn, &insert_message_hongbao_claim(&row)).unwrap();
    run(&conn, &insert_message_hongbao_claim(&row)).unwrap();
    assert_eq!(
        rows(
            &conn,
            "SELECT account_id_sha, source, source_native_id, send_id, is_own_envelope, account_id,
             peer_name
             FROM message_hongbao_claim",
        ),
        vec![vec![
            text("account_id_sha of it"),
            text("source of it"),
            text("source_native_id of it"),
            text("send_id of it"),
            SqlValue::Integer(1),
            text("account_id of it"),
            text("peer_name of it"),
        ]]
    );
    let log = logged(&row.debug_row());
    for hidden in [
        "\"account_id of it\"",
        "\"peer_name of it\"",
    ] {
        assert!(!log.contains(hidden));
    }
    assert!(log.contains("\"account_id_sha of it\""));
    run(&conn, &delete_message_hongbao_claim("account_id_sha of it", "source of it", "another")).unwrap();
    assert_eq!(rows(&conn, "SELECT 1 FROM message_hongbao_claim").len(), 1);
    run(&conn, &delete_message_hongbao_claim("account_id_sha of it", "source of it", "source_native_id of it")).unwrap();
    assert_eq!(rows(&conn, "SELECT 1 FROM message_hongbao_claim").len(), 0);
}

#[test]
fn message_card_row_is_stored_column_by_column() {
    let conn = made(&init_message_card_table());
    let row = V3MessageCard {
        account_id_sha: "account_id_sha of it".to_string(),
        source: "source of it".to_string(),
        source_native_id: "source_native_id of it".to_string(),
        card_sex: 103,
        account_id: "account_id of it".to_string(),
        card_username: "card_username of it".to_string(),
        card_nickname: None,
        card_alias: Some("card_alias of it".to_string()),
        card_province: Some("card_province of it".to_string()),
        card_city: None,
        card_sign: Some("card_sign of it".to_string()),
        card_open_im_desc: Some("card_open_im_desc of it".to_string()),
        big_head_url: None,
        small_head_url: Some("small_head_url of it".to_string()),
    };
    run(&conn, &insert_message_card(&row)).unwrap();
    run(&conn, &insert_message_card(&row)).unwrap();
    assert_eq!(
        rows(
            &conn,
            "SELECT account_id_sha, source, source_native_id, card_sex, account_id, card_username,
             card_nickname, card_alias, card_province, card_city, card_sign, card_open_im_desc,
             big_head_url, small_head_url
             FROM message_card",
        ),
        vec![vec![
            text("account_id_sha of it"),
            text("source of it"),
            text("source_native_id of it"),
            SqlValue::Integer(103),
            text("account_id of it"),
            text("card_username of it"),
            SqlValue::Null,
            text("card_alias of it"),
            text("card_province of it"),
            SqlValue::Null,
            text("card_sign of it"),
            text("card_open_im_desc of it"),
            SqlValue::Null,
            text("small_head_url of it"),
        ]]
    );
    let log = logged(&row.debug_row());
    for hidden in [
        "\"account_id of it\"",
        "\"card_username of it\"",
        "\"card_alias of it\"",
        "\"card_sign of it\"",
        "\"card_open_im_desc of it\"",
    ] {
        assert!(!log.contains(hidden));
    }
    assert!(log.contains("\"account_id_sha of it\""));
    run(&conn, &delete_message_card("account_id_sha of it", "source of it", "another")).unwrap();
    assert_eq!(rows(&conn, "SELECT 1 FROM message_card").len(), 1);
    run(&conn, &delete_message_card("account_id_sha of it", "source of it", "source_native_id of it")).unwrap();
    assert_eq!(rows(&conn, "SELECT 1 FROM message_card").len(), 0);
}

#[test]
fn message_forward_item_row_is_stored_column_by_column() {
    let conn = made(&init_message_forward_item_table());
    let row = V3MessageForwardItem {
        account_id_sha: "account_id_sha of it".to_string(),
        source: "source of it".to_string(),
        source_native_id: "source_native_id of it".to_string(),
        seq: 103,
        data_type: "data_type of it".to_string(),
        data_size: 105,
        account_id: "account_id of it".to_string(),
        source_name: Some("source_name of it".to_string()),
        source_time: Some("source_time of it".to_string()),
        data_title: None,
        data_desc: Some("data_desc of it".to_string()),
        media_md5: Some("media_md5 of it".to_string()),
    };
    run(&conn, &insert_message_forward_item(&row)).unwrap();
    run(&conn, &insert_message_forward_item(&row)).unwrap();
    assert_eq!(
        rows(
            &conn,
            "SELECT account_id_sha, source, source_native_id, seq, data_type, data_size, account_id,
             source_name, source_time, data_title, data_desc, media_md5
             FROM message_forward_item",
        ),
        vec![vec![
            text("account_id_sha of it"),
            text("source of it"),
            text("source_native_id of it"),
            SqlValue::Integer(103),
            text("data_type of it"),
            SqlValue::Integer(105),
            text("account_id of it"),
            text("source_name of it"),
            text("source_time of it"),
            SqlValue::Null,
            text("data_desc of it"),
            text("media_md5 of it"),
        ]]
    );
    let log = logged(&row.debug_row());
    for hidden in [
        "\"account_id of it\"",
        "\"source_name of it\"",
        "\"media_md5 of it\"",
    ] {
        assert!(!log.contains(hidden));
    }
    assert!(log.contains("\"account_id_sha of it\""));
    run(&conn, &delete_message_forward_items("account_id_sha of it", "source of it", "another")).unwrap();
    assert_eq!(rows(&conn, "SELECT 1 FROM message_forward_item").len(), 1);
    run(&conn, &delete_message_forward_items("account_id_sha of it", "source of it", "source_native_id of it")).unwrap();
    assert_eq!(rows(&conn, "SELECT 1 FROM message_forward_item").len(), 0);
}

#[test]
fn moment_feed_row_is_stored_column_by_column() {
    let conn = made(&init_moment_feed_table());
    let row = V3MomentFeed {
        account_id_sha: "account_id_sha of it".to_string(),
        source: "source of it".to_string(),
        source_native_id: "source_native_id of it".to_string(),
        tid: 103,
        author_sha: "author_sha of it".to_string(),
        create_time: 105,
        last_read_time: 106,
        is_read: 107,
        account_id: "account_id of it".to_string(),
        author: "author of it".to_string(),
    };
    run(&conn, &insert_moment_feed(&row)).unwrap();
    run(&conn, &insert_moment_feed(&row)).unwrap();
    assert_eq!(
        rows(
            &conn,
            "SELECT account_id_sha, source, source_native_id, tid, author_sha, create_time,
             last_read_time, is_read, account_id, author
             FROM moment_feed",
        ),
        vec![vec![
            text("account_id_sha of it"),
            text("source of it"),
            text("source_native_id of it"),
            SqlValue::Integer(103),
            text("author_sha of it"),
            SqlValue::Integer(105),
            SqlValue::Integer(106),
            SqlValue::Integer(107),
            text("account_id of it"),
            text("author of it"),
        ]]
    );
    let log = logged(&row.debug_row());
    for hidden in [
        "\"account_id of it\"",
    ] {
        assert!(!log.contains(hidden));
    }
    assert!(log.contains("\"account_id_sha of it\""));
}

#[test]
fn sns_notify_row_is_stored_column_by_column() {
    let conn = made(&init_sns_notify_table());
    let row = V3SnsNotify {
        account_id_sha: "account_id_sha of it".to_string(),
        source: "source of it".to_string(),
        source_native_id: "source_native_id of it".to_string(),
        comment_id: 103,
        feed_id: 104,
        notify_type: 105,
        from_user_sha: "from_user_sha of it".to_string(),
        create_time: 107,
        to_user_sha: Some("to_user_sha of it".to_string()),
        is_unread: 109,
        del_status: 110,
        is_relative_me: 111,
        account_id: "account_id of it".to_string(),
        from_user: "from_user of it".to_string(),
        to_user: Some("to_user of it".to_string()),
        from_nickname: None,
        to_nickname: Some("to_nickname of it".to_string()),
        content: Some("content of it".to_string()),
    };
    run(&conn, &insert_sns_notify(&row)).unwrap();
    run(&conn, &insert_sns_notify(&row)).unwrap();
    assert_eq!(
        rows(
            &conn,
            "SELECT account_id_sha, source, source_native_id, comment_id, feed_id, notify_type,
             from_user_sha, create_time, to_user_sha, is_unread, del_status, is_relative_me,
             account_id, from_user, to_user, from_nickname, to_nickname, content
             FROM sns_notify",
        ),
        vec![vec![
            text("account_id_sha of it"),
            text("source of it"),
            text("source_native_id of it"),
            SqlValue::Integer(103),
            SqlValue::Integer(104),
            SqlValue::Integer(105),
            text("from_user_sha of it"),
            SqlValue::Integer(107),
            text("to_user_sha of it"),
            SqlValue::Integer(109),
            SqlValue::Integer(110),
            SqlValue::Integer(111),
            text("account_id of it"),
            text("from_user of it"),
            text("to_user of it"),
            SqlValue::Null,
            text("to_nickname of it"),
            text("content of it"),
        ]]
    );
    let log = logged(&row.debug_row());
    for hidden in [
        "\"account_id of it\"",
        "\"to_nickname of it\"",
        "\"content of it\"",
    ] {
        assert!(!log.contains(hidden));
    }
    assert!(log.contains("\"account_id_sha of it\""));
}

#[test]
fn finder_visit_row_is_stored_column_by_column() {
    let conn = made(&init_finder_visit_table());
    let row = V3FinderVisit {
        account_id_sha: "account_id_sha of it".to_string(),
        source: "source of it".to_string(),
        source_native_id: "source_native_id of it".to_string(),
        owner_username_sha: "owner_username_sha of it".to_string(),
        visit_time: 104,
        account_id: "account_id of it".to_string(),
        owner_username: "owner_username of it".to_string(),
        name: "name of it".to_string(),
        profile_url: "profile_url of it".to_string(),
    };
    run(&conn, &insert_finder_visit(&row)).unwrap();
    run(&conn, &insert_finder_visit(&row)).unwrap();
    assert_eq!(
        rows(
            &conn,
            "SELECT account_id_sha, source, source_native_id, owner_username_sha, visit_time,
             account_id, owner_username, name, profile_url
             FROM finder_visit",
        ),
        vec![vec![
            text("account_id_sha of it"),
            text("source of it"),
            text("source_native_id of it"),
            text("owner_username_sha of it"),
            SqlValue::Integer(104),
            text("account_id of it"),
            text("owner_username of it"),
            text("name of it"),
            text("profile_url of it"),
        ]]
    );
    let log = logged(&row.debug_row());
    for hidden in [
        "\"account_id of it\"",
        "\"name of it\"",
    ] {
        assert!(!log.contains(hidden));
    }
    assert!(log.contains("\"account_id_sha of it\""));
}

#[test]
fn transfer_row_is_stored_column_by_column() {
    let conn = made(&init_transfer_table());
    let row = V3Transfer {
        account_id_sha: "account_id_sha of it".to_string(),
        source: "source of it".to_string(),
        source_native_id: "source_native_id of it".to_string(),
        transfer_id: "transfer_id of it".to_string(),
        transcation_id: "transcation_id of it".to_string(),
        message_server_id: 105,
        second_message_server_id: 106,
        pay_sub_type: 107,
        session_name_sha: "session_name_sha of it".to_string(),
        pay_payer_sha: "pay_payer_sha of it".to_string(),
        pay_receiver_sha: "pay_receiver_sha of it".to_string(),
        begin_transfer_time: 111,
        last_modified_time: 112,
        invalid_time: 113,
        last_update_time: 114,
        delay_confirm_flag: 115,
        bubble_clicked_flag: 116,
        account_id: "account_id of it".to_string(),
        session_name: "session_name of it".to_string(),
        pay_payer: "pay_payer of it".to_string(),
        pay_receiver: "pay_receiver of it".to_string(),
    };
    run(&conn, &insert_transfer(&row)).unwrap();
    run(&conn, &insert_transfer(&row)).unwrap();
    assert_eq!(
        rows(
            &conn,
            "SELECT account_id_sha, source, source_native_id, transfer_id, transcation_id,
             message_server_id, second_message_server_id, pay_sub_type, session_name_sha,
             pay_payer_sha, pay_receiver_sha, begin_transfer_time, last_modified_time,
             invalid_time, last_update_time, delay_confirm_flag, bubble_clicked_flag,
             account_id, session_name, pay_payer, pay_receiver
             FROM transfer",
        ),
        vec![vec![
            text("account_id_sha of it"),
            text("source of it"),
            text("source_native_id of it"),
            text("transfer_id of it"),
            text("transcation_id of it"),
            SqlValue::Integer(105),
            SqlValue::Integer(106),
            SqlValue::Integer(107),
            text("session_name_sha of it"),
            text("pay_payer_sha of it"),
            text("pay_receiver_sha of it"),
            SqlValue::Integer(111),
            SqlValue::Integer(112),
            SqlValue::Integer(113),
            SqlValue::Integer(114),
            SqlValue::Integer(115),
            SqlValue::Integer(116),
            text("account_id of it"),
            text("session_name of it"),
            text("pay_payer of it"),
            text("pay_receiver of it"),
        ]]
    );
    let log = logged(&row.debug_row());
    for hidden in [
        "\"account_id of it\"",
    ] {
        assert!(!log.contains(hidden));
    }
    assert!(log.contains("\"account_id_sha of it\""));
}

#[test]
fn red_envelope_row_is_stored_column_by_column() {
    let conn = made(&init_red_envelope_table());
    let row = V3RedEnvelope {
        account_id_sha: "account_id_sha of it".to_string(),
        source: "source of it".to_string(),
        source_native_id: "source_native_id of it".to_string(),
        send_id: "send_id of it".to_string(),
        message_server_id: 104,
        sender_user_name_sha: "sender_user_name_sha of it".to_string(),
        session_name_sha: "session_name_sha of it".to_string(),
        scene_id: 107,
        hb_status: 108,
        hb_type: 109,
        receive_status: 110,
        native_url: "native_url of it".to_string(),
        account_id: "account_id of it".to_string(),
        sender_user_name: "sender_user_name of it".to_string(),
        session_name: "session_name of it".to_string(),
    };
    run(&conn, &insert_red_envelope(&row)).unwrap();
    run(&conn, &insert_red_envelope(&row)).unwrap();
    assert_eq!(
        rows(
            &conn,
            "SELECT account_id_sha, source, source_native_id, send_id, message_server_id,
             sender_user_name_sha, session_name_sha, scene_id, hb_status, hb_type,
             receive_status, native_url, account_id, sender_user_name, session_name
             FROM red_envelope",
        ),
        vec![vec![
            text("account_id_sha of it"),
            text("source of it"),
            text("source_native_id of it"),
            text("send_id of it"),
            SqlValue::Integer(104),
            text("sender_user_name_sha of it"),
            text("session_name_sha of it"),
            SqlValue::Integer(107),
            SqlValue::Integer(108),
            SqlValue::Integer(109),
            SqlValue::Integer(110),
            text("native_url of it"),
            text("account_id of it"),
            text("sender_user_name of it"),
            text("session_name of it"),
        ]]
    );
    let log = logged(&row.debug_row());
    for hidden in [
        "\"account_id of it\"",
    ] {
        assert!(!log.contains(hidden));
    }
    assert!(log.contains("\"account_id_sha of it\""));
}

#[test]
fn group_pay_row_is_stored_column_by_column() {
    let conn = made(&init_group_pay_table());
    let row = V3GroupPay {
        account_id_sha: "account_id_sha of it".to_string(),
        source: "source of it".to_string(),
        source_native_id: "source_native_id of it".to_string(),
        bill_no: "bill_no of it".to_string(),
        message_local_id: 104,
        message_create_time: 105,
        session_name_sha: "session_name_sha of it".to_string(),
        account_id: "account_id of it".to_string(),
        session_name: "session_name of it".to_string(),
    };
    run(&conn, &insert_group_pay(&row)).unwrap();
    run(&conn, &insert_group_pay(&row)).unwrap();
    assert_eq!(
        rows(
            &conn,
            "SELECT account_id_sha, source, source_native_id, bill_no, message_local_id,
             message_create_time, session_name_sha, account_id, session_name
             FROM group_pay",
        ),
        vec![vec![
            text("account_id_sha of it"),
            text("source of it"),
            text("source_native_id of it"),
            text("bill_no of it"),
            SqlValue::Integer(104),
            SqlValue::Integer(105),
            text("session_name_sha of it"),
            text("account_id of it"),
            text("session_name of it"),
        ]]
    );
    let log = logged(&row.debug_row());
    for hidden in [
        "\"account_id of it\"",
    ] {
        assert!(!log.contains(hidden));
    }
    assert!(log.contains("\"account_id_sha of it\""));
}

fn member(native_id: &str, wxid: &str) -> V3ChatroomMember {
    V3ChatroomMember {
        account_id_sha: "acct".to_string(),
        source: "chatroom.db".to_string(),
        source_native_id: native_id.to_string(),
        chatroom_id_sha: "room".to_string(),
        member_wxid_sha: format!("{wxid}_sha"),
        account_id: "wxid_acct".to_string(),
        chatroom_id: "room@chatroom".to_string(),
        member_wxid: wxid.to_string(),
        display_name: None,
        display_name_len: 0,
        joined_at: Some(1),
        left_at: None,
        is_in_group: true,
        role: "member".to_string(),
        invited_by: None,
    }
}

#[test]
fn members_who_left_are_not_in_the_group() {
    let conn = made(&init_chatroom_member_table());
    run(&conn, &upsert_chatroom_member_add(&member("a", "wxid_a"))).unwrap();
    run(&conn, &upsert_chatroom_member_add(&member("b", "wxid_b"))).unwrap();
    run(&conn, &mark_chatroom_member_left("acct", "chatroom.db", "b", 9)).unwrap();
    let query = query_chatroom_members_in_group("acct", "chatroom.db", "room");
    let found: Vec<ChatroomMemberRef> = rows_of(&conn, &query)
        .iter()
        .map(|values| member_ref_from_row(values).unwrap())
        .collect();
    assert_eq!(found.len(), 1);
    assert_eq!(found[0].member_wxid_sha, "wxid_a_sha");
    assert_eq!(found[0].member_wxid, "wxid_a");
    assert_eq!(found[0].source_native_id, "a");
    assert!(!logged(&found[0].debug_row()).contains("\"wxid_a\""));
    assert!(member_ref_from_row(&vec![SqlValue::Null]).is_none());
    let elsewhere = query_chatroom_members_in_group("acct", "chatroom.db", "other");
    assert!(rows_of(&conn, &elsewhere).is_empty());
}
