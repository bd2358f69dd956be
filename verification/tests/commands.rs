use mordoprojekt::canvas::{paintdot, CANVAS_SIDE};
use mordoprojekt::commands::{
    account_created_sentence, age, create_gimper_attachment, creation_millis, gimper, gpt, gpt_request, paintdot_reply,
    send_embed, UserProfile, DISCORD_EPOCH_MS, LATEST_CREATION_MS, LOREM, MESSAGE_SIZE_LIMIT,
    SHRUG, THINKING,
};
use mordoprojekt::prefix_bot::{ping, COMMAND_PREFIX};
use mordoprojekt::reply::EmbedColour;

fn decode(png: &[u8]) -> image::RgbImage {
    image::load_from_memory_with_format(png, image::ImageFormat::Png)
        .expect("a PNG file")
        .to_rgb8()
}

#[test]
fn paintdot_paints_one_white_pixel() {
    let png = paintdot(3, 7).expect("encoded");
    let img = decode(&png);
    assert_eq!(img.dimensions(), (256, 256));
    for (x, y, p) in img.enumerate_pixels() {
        if (x, y) == (3, 7) {
            assert_eq!(p.0, [255, 255, 255]);
        } else {
            assert_eq!(p.0, [0, 0, 0]);
        }
    }
}

#[test]
fn paintdot_corners() {
    for (a, b) in [(0u32, 0u32), (255, 255), (255, 0), (0, 255)] {
        let img = decode(&paintdot(a, b).expect("encoded"));
        assert_eq!(img.get_pixel(a, b).0, [255, 255, 255]);
        let white = img.pixels().filter(|p| p.0 == [255, 255, 255]).count();
        assert_eq!(white, 1);
    }
    assert_eq!(CANVAS_SIDE, 256);
}

#[test]
fn paintdot_png_matches_the_image_crate() {
    let mut reference: image::RgbImage = image::ImageBuffer::new(256, 256);
    *reference.get_pixel_mut(10, 20) = image::Rgb([255, 255, 255]);
    let mut out = std::io::Cursor::new(Vec::new());
    reference.write_to(&mut out, image::ImageOutputFormat::Png).unwrap();
    assert_eq!(paintdot(10, 20).unwrap(), out.into_inner());
}

#[test]
fn paintdot_reply_sends_output_png() {
    let reply = paintdot_reply(vec![1, 2, 3]);
    assert!(reply.content.is_none());
    assert!(reply.embed.is_none());
    let att = reply.attachment.expect("an attachment");
    assert_eq!(att.data, vec![1, 2, 3]);
    assert_eq!(att.filename, "output.png");
}

#[test]
fn gimper_attachment_is_named_gimper_jpg() {
    let att = create_gimper_attachment(vec![0xff, 0xd8, 0xff]);
    assert_eq!(att.data, vec![0xff, 0xd8, 0xff]);
    assert_eq!(att.filename, "gimper.jpg");
}

#[test]
fn gimper_sends_a_copy_of_the_picture() {
    let stored = create_gimper_attachment(vec![9, 8, 7]);
    let reply = gimper(&stored);
    assert!(reply.content.is_none());
    assert!(reply.embed.is_none());
    let att = reply.attachment.expect("an attachment");
    assert_eq!(att.data, stored.data);
    assert_eq!(att.filename, stored.filename);
}

#[test]
fn send_embed_is_blue_lorem_with_title() {
    let reply = send_embed("Tytuł".to_string());
    assert!(reply.content.is_none());
    assert!(reply.attachment.is_none());
    let e = reply.embed.expect("an embed");
    assert_eq!(e.title.as_deref(), Some("Tytuł"));
    assert_eq!(e.description, LOREM);
    assert!(e.description.starts_with("Lorem ipsum dolor sit amet"));
    assert!(e.description.ends_with("finibus posuere.\n"));
    assert!(e.description.contains("egestas.\n\nSed libero"));
    assert_eq!(e.colour, EmbedColour::Blue);
}

#[test]
fn creation_millis_decodes_ids() {
    assert_eq!(creation_millis(0), DISCORD_EPOCH_MS as i64);
    assert_eq!(creation_millis(1 << 22), DISCORD_EPOCH_MS as i64 + 1);
    assert_eq!(creation_millis(175928847299117063), 1462015105796);
    assert_eq!(creation_millis(u64::MAX), LATEST_CREATION_MS);
}

#[test]
fn creation_time_is_monotone_in_the_id() {
    let ids = [0u64, 1, (1 << 22) - 1, 1 << 22, 175928847299117063, u64::MAX - 1, u64::MAX];
    for w in ids.windows(2) {
        assert!(creation_millis(w[0]) <= creation_millis(w[1]));
    }
}

#[test]
fn age_of_selected_user() {
    let author = UserProfile { id: 1, name: "autor".to_string() };
    let chosen = UserProfile { id: 175928847299117063, name: "mordo".to_string() };
    assert_eq!(
        age(Some(chosen), author),
        "mordo's account was created at 2016-04-30T11:18:25.796Z"
    );
}

#[test]
fn age_of_author_when_nobody_selected() {
    let author = UserProfile { id: 4194304, name: "autor".to_string() };
    assert_eq!(age(None, author), "autor's account was created at 2015-01-01T00:00:00.001Z");
}

#[test]
fn age_matches_the_chat_library() {
    let id = 80351110224678912u64;
    let expected = serenity::all::UserId::new(id).created_at().to_string();
    let text = age(None, UserProfile { id, name: "x".to_string() });
    assert_eq!(text, format!("x's account was created at {}", expected));
}

#[test]
fn gpt_request_asks_gpt_3_5_turbo() {
    let req = gpt_request(&"Ile to 2+2?".to_string());
    assert_eq!(req.model, "gpt-3.5-turbo");
    assert_eq!(req.model, openai_api_rs::v1::common::GPT3_5_TURBO);
    assert_eq!(req.user_message, "Ile to 2+2?");
}

#[test]
fn gpt_shows_first_choice() {
    let reply = gpt(
        &"hej".to_string(),
        &vec![Some("odpowiedź".to_string()), Some("druga".to_string())],
    );
    assert_eq!(reply.content.as_deref(), Some(">>> hej"));
    assert!(reply.attachment.is_none());
    let e = reply.embed.expect("an embed");
    assert!(e.title.is_none());
    assert_eq!(e.description, "odpowiedź");
    assert_eq!(e.colour, EmbedColour::Red);
}

#[test]
fn gpt_shrugs_without_text() {
    let reply = gpt(&"?".to_string(), &vec![None]);
    let e = reply.embed.expect("an embed");
    assert_eq!(e.description, "¯\\_(ツ)_/¯");
    assert_eq!(e.description, SHRUG);
}

#[test]
fn gpt_cuts_long_answers_to_4096_characters() {
    let long: String = std::iter::repeat('ż').take(5000).collect();
    let reply = gpt(&"p".to_string(), &vec![Some(long.clone())]);
    let e = reply.embed.expect("an embed");
    assert_eq!(e.description.chars().count(), MESSAGE_SIZE_LIMIT);
    assert_eq!(e.description, long.chars().take(4096).collect::<String>());

    let exact: String = std::iter::repeat('a').take(4096).collect();
    let reply = gpt(&"p".to_string(), &vec![Some(exact.clone())]);
    assert_eq!(reply.embed.unwrap().description, exact);
}

#[test]
fn gpt_placeholder_is_thinking_face() {
    assert_eq!(THINKING, "🤔");
}

#[test]
fn prefix_bot_ping_answers_pong() {
    assert_eq!(ping(), "Pong!");
    assert_eq!(COMMAND_PREFIX, "~");
}

#[test]
fn account_sentence_joins_name_and_time() {
    let text = account_created_sentence(
        &"Zenek".to_string(),
        &"2020-01-01T00:00:00.000Z".to_string(),
    );
    assert_eq!(text, "Zenek's account was created at 2020-01-01T00:00:00.000Z");
}
