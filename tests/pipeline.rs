use bundler::archive::{pack_outputs, status_code, ArchiveError, ZipFile};
use bundler::artifact::{ArtifactStore, RetrievalError, StoreError, Token};
use bundler::asset::{classify_and_validate, classify_probed, AssetError, AssetKind, Font, Icon, IconFormat, Image, SniffedFormat};
use bundler::orchestrator::{
    aggregate, check_upload, compile_outcome, conversion_outcome, job_outcome, plan_targets, prepare_compile, prepare_conversion, resolve_icon,
    BuildError, BuildStatus, JobOutcome, Output,
};
use bundler::platform::Platform;
use bundler::response::ArtifactResponse;
use bundler::tools::{JobError, Metadata};

fn png(width: u32, height: u32) -> Vec<u8> {
    let img = image::DynamicImage::ImageRgba8(image::RgbaImage::new(width, height));
    let mut out: Vec<u8> = Vec::new();
    img.write_to(std::io::Cursor::new(&mut out), image::ImageFormat::Png).unwrap();
    out
}

fn jpeg(width: u32, height: u32) -> Vec<u8> {
    let img = image::DynamicImage::ImageRgb8(image::RgbImage::new(width, height));
    let mut out: Vec<u8> = Vec::new();
    img.write_to(std::io::Cursor::new(&mut out), image::ImageFormat::Jpeg).unwrap();
    out
}

/// The smallest face the font parser accepts: `head`, `hhea` and `maxp`.
fn minimal_font() -> Vec<u8> {
    let mut f: Vec<u8> = Vec::new();
    f.extend_from_slice(&[0x00, 0x01, 0x00, 0x00]);
    f.extend_from_slice(&3u16.to_be_bytes());
    f.extend_from_slice(&[0; 6]);
    let tables: [(&[u8; 4], u32, u32); 3] = [(b"head", 60, 54), (b"hhea", 114, 36), (b"maxp", 150, 6)];
    for (tag, offset, length) in tables {
        f.extend_from_slice(tag);
        f.extend_from_slice(&0u32.to_be_bytes());
        f.extend_from_slice(&offset.to_be_bytes());
        f.extend_from_slice(&length.to_be_bytes());
    }
    let mut head = vec![0u8; 54];
    head[18..20].copy_from_slice(&1000u16.to_be_bytes());
    f.extend_from_slice(&head);
    f.extend_from_slice(&[0u8; 36]);
    f.extend_from_slice(&[0x00, 0x00, 0x50, 0x00, 0x00, 0x01]);
    f
}

fn strings(v: &[&str]) -> Vec<String> {
    v.iter().map(|s| s.to_string()).collect()
}

fn produced(path: &str, bytes: &[u8]) -> JobOutcome {
    JobOutcome::Produced(Output { path: path.to_string(), bytes: bytes.to_vec() })
}

fn metadata(title: &str) -> Metadata {
    Metadata {
        title: title.to_string(),
        author: "Author".to_string(),
        version: "1.0.0".to_string(),
        description: "Desc".to_string(),
        targets: strings(&["ctr"]),
    }
}

#[test]
fn image_in_range_is_image() {
    assert_eq!(classify_and_validate(&png(3, 3)), Ok(AssetKind::Image));
    assert_eq!(classify_and_validate(&png(1024, 1024)), Ok(AssetKind::Image));
    assert_eq!(classify_and_validate(&jpeg(64, 32)), Ok(AssetKind::Image));
    assert_eq!(Image::is_valid(&png(48, 48)), Ok(()));
}

#[test]
fn image_out_of_range_is_invalid() {
    assert_eq!(classify_and_validate(&png(2, 10)), Err(AssetError::InvalidImage));
    assert_eq!(classify_and_validate(&png(10, 1025)), Err(AssetError::InvalidImage));
    assert_eq!(classify_and_validate(&jpeg(1025, 8)), Err(AssetError::InvalidImage));
    assert_eq!(Image::is_valid(&png(2, 2)), Err(AssetError::InvalidImage));
}

#[test]
fn unrecognised_bytes_are_invalid() {
    assert_eq!(classify_and_validate(&[]), Err(AssetError::InvalidFont));
    assert_eq!(classify_and_validate(b"hello, world"), Err(AssetError::InvalidFont));
    let mut broken = png(10, 10);
    broken.truncate(20);
    assert_eq!(classify_and_validate(&broken), Err(AssetError::InvalidFont));
    assert_eq!(Image::is_valid(b"GIF89a"), Err(AssetError::UnreadableImage));
    assert_eq!(Font::is_valid(b"\x00\x01\x00\x00"), Err(AssetError::InvalidFont));
}

#[test]
fn font_face_is_font() {
    let font = minimal_font();
    assert_eq!(Font::is_valid(&font), Ok(()));
    assert_eq!(classify_and_validate(&font), Ok(AssetKind::Font));
    assert_eq!(Image::is_valid(&font), Err(AssetError::UnreadableImage));
    let mut cut = font.clone();
    cut.truncate(100);
    assert_eq!(classify_and_validate(&cut), Err(AssetError::InvalidFont));
}

#[test]
fn conversion_job_for_font() {
    let job = prepare_conversion(&minimal_font(), "/tmp/t", "fonts", "body.ttf").unwrap();
    assert_eq!(job.kind, AssetKind::Font);
    assert_eq!(job.plan.relative_output, "fonts/body.bcfnt");
    assert_eq!(job.plan.call.program, "mkbcfnt");
    assert_eq!(job.plan.call.args, strings(&["/tmp/t/fonts/body.ttf", "-o", "/tmp/t/fonts/body.bcfnt"]));
}

#[test]
fn classification_from_probes() {
    assert_eq!(classify_probed(SniffedFormat::Png, Some((3, 1024)), false), Ok(AssetKind::Image));
    assert_eq!(classify_probed(SniffedFormat::Jpeg, Some((1025, 5)), true), Err(AssetError::InvalidImage));
    assert_eq!(classify_probed(SniffedFormat::Png, None, true), Ok(AssetKind::Font));
    assert_eq!(classify_probed(SniffedFormat::Other, Some((10, 10)), false), Err(AssetError::InvalidFont));
    assert!(Image::validate(3, 3));
    assert!(!Image::validate(2, 3));
    assert!(!Image::validate(3, 1025));
}

#[test]
fn icon_scaled_per_platform() {
    let icon = Icon::from_bytes(&Platform::Hac, &png(512, 512)).unwrap();
    assert_eq!(icon.format(), IconFormat::Jpeg);
    assert_eq!(icon.box_size(), (256, 256));
    assert_eq!(icon.scaled_size(), (256, 256));
    let bytes = icon.create();
    assert_eq!(&bytes[..2], &[0xFF, 0xD8]);
    let decoded = image::load_from_memory(&bytes).unwrap();
    assert_eq!((decoded.width(), decoded.height()), (256, 256));

    let icon = Icon::from_bytes(&Platform::Ctr, &png(96, 96)).unwrap();
    assert_eq!(icon.format(), IconFormat::Png);
    let decoded = image::load_from_memory(&icon.create()).unwrap();
    assert_eq!((decoded.width(), decoded.height()), (48, 48));

    let icon = Icon::from_bytes(&Platform::Cafe, &png(400, 100)).unwrap();
    assert_eq!(icon.box_size(), (128, 128));
    assert_eq!(icon.scaled_size(), (128, 32));
    let decoded = image::load_from_memory(&icon.create()).unwrap();
    assert_eq!((decoded.width(), decoded.height()), (128, 32));

    assert!(Icon::from_bytes(&Platform::Cafe, b"not an image").is_none());
}

#[test]
fn duplicate_targets_run_once() {
    let plan = plan_targets(&strings(&["ctr", "ctr", "hac"])).unwrap();
    assert_eq!(plan.platforms, vec![Platform::Ctr, Platform::Hac]);
    assert!(plan.dropped.is_empty());
    let plan = plan_targets(&strings(&["CTR", "ctr", "Cafe"])).unwrap();
    assert_eq!(plan.platforms, vec![Platform::Ctr, Platform::Cafe]);
}

#[test]
fn unknown_target_is_dropped() {
    let plan = plan_targets(&strings(&["ctr", "wii", "hac", "wii"])).unwrap();
    assert_eq!(plan.platforms, vec![Platform::Ctr, Platform::Hac]);
    assert_eq!(plan.dropped, strings(&["wii"]));
    let plan = plan_targets(&strings(&["xbox"])).unwrap();
    assert!(plan.platforms.is_empty());
    assert_eq!(plan.dropped, strings(&["xbox"]));
}

#[test]
fn empty_target_list_is_refused() {
    assert!(matches!(plan_targets(&Vec::new()), Err(BuildError::NoTargets)));
}

#[test]
fn upload_shape_is_checked() {
    assert_eq!(check_upload(0, 0), Err(BuildError::EmptyUpload));
    assert_eq!(check_upload(2, 0), Err(BuildError::EmptyUpload));
    assert_eq!(check_upload(2, 3), Err(BuildError::MismatchedUpload));
    assert_eq!(check_upload(3, 3), Ok(()));
}

#[test]
fn two_of_three_is_partial() {
    let outcomes = vec![
        produced("ctr/game.3dsx", b"abc"),
        JobOutcome::Failed(JobError::PackagingFailed),
        produced("hac/game.nro", b"de"),
    ];
    let result = aggregate(3, outcomes);
    assert_eq!(result.status, BuildStatus::Partial);
    assert_eq!(result.outputs.len(), 2);
    assert_eq!(result.outputs[0].path, "ctr/game.3dsx");
    assert_eq!(result.outputs[1].path, "hac/game.nro");
    assert_eq!(result.failures, vec![JobError::PackagingFailed]);
    assert_eq!(status_code(result.status), 206);

    let mut store = ArtifactStore::new(false);
    let token = Token::generate();
    let files = store.publish(&token, &result).unwrap();
    assert_eq!(files, strings(&["ctr/game.3dsx", "hac/game.nro"]));
    let text = token.text();
    assert_eq!(store.get(&text, "hac/game.nro"), Ok(b"de".to_vec()));
}

#[test]
fn nothing_produced_is_a_client_error() {
    let outcomes = vec![
        JobOutcome::Failed(JobError::PackagingFailed),
        produced("ctr/empty.3dsx", b""),
        produced("../escape", b"x"),
    ];
    let result = aggregate(3, outcomes);
    assert_eq!(result.status, BuildStatus::Failed);
    assert!(result.outputs.is_empty());
    assert_eq!(status_code(result.status), 400);
    let mut store = ArtifactStore::new(false);
    let token = Token::generate();
    assert_eq!(store.publish(&token, &result), Err(BuildError::NothingProduced));
    assert_eq!(store.get(&token.text(), "ctr/empty.3dsx"), Err(RetrievalError::NotFound));
    assert!(matches!(pack_outputs(&result), Err(BuildError::NothingProduced)));
}

#[test]
fn all_succeeding_is_complete() {
    let result = aggregate(1, vec![produced("cafe/game.wuhb", b"w")]);
    assert_eq!(result.status, BuildStatus::Complete);
    assert_eq!(status_code(result.status), 200);
}

#[test]
fn job_outcome_needs_bytes() {
    assert!(matches!(job_outcome("a".to_string(), None, JobError::ConversionFailed), JobOutcome::Failed(JobError::ConversionFailed)));
    assert!(matches!(job_outcome("a".to_string(), Some(Vec::new()), JobError::PackagingFailed), JobOutcome::Failed(JobError::PackagingFailed)));
    match job_outcome("a/b.t3x".to_string(), Some(vec![1]), JobError::ConversionFailed) {
        JobOutcome::Produced(o) => {
            assert_eq!(o.path, "a/b.t3x");
            assert_eq!(o.bytes, vec![1]);
        }
        JobOutcome::Failed(_) => panic!("expected an output"),
    }
}

#[test]
fn uploaded_icon_preferred() {
    assert_eq!(resolve_icon(Some(vec![1, 2])), Some(vec![1, 2]));
    assert_eq!(resolve_icon(Some(Vec::new())), None);
    assert_eq!(resolve_icon(None), None);
}

#[test]
fn store_round_trip() {
    let mut store = ArtifactStore::new(false);
    let token = Token::generate();
    let text = token.text();
    assert_eq!(store.put(&token, "ctr/game.3dsx", vec![9, 8, 7]), Ok(()));
    assert_eq!(store.get(&text, "ctr/game.3dsx"), Ok(vec![9, 8, 7]));
    assert_eq!(store.get(&text, "ctr/game.3dsx"), Ok(vec![9, 8, 7]));
    assert_eq!(store.get(&text, "ctr\\game.3dsx"), Ok(vec![9, 8, 7]));
    assert_eq!(store.put(&token, "ctr/game.3dsx", vec![1]), Ok(()));
    assert_eq!(store.get(&text, "ctr/game.3dsx"), Ok(vec![1]));
    let upper = text.to_uppercase();
    assert_eq!(store.get(&upper, "ctr/game.3dsx"), Ok(vec![1]));
}

#[test]
fn one_shot_store_forgets() {
    let mut store = ArtifactStore::new(true);
    let token = Token::generate();
    let other = Token::generate();
    store.put(&token, "a/x.t3x", vec![1]).unwrap();
    store.put(&token, "a/y.t3x", vec![2]).unwrap();
    store.put(&other, "a/x.t3x", vec![3]).unwrap();
    assert_eq!(store.get(&token.text(), "a/x.t3x"), Ok(vec![1]));
    assert_eq!(store.get(&token.text(), "a/x.t3x"), Err(RetrievalError::NotFound));
    assert_eq!(store.get(&token.text(), "a/y.t3x"), Ok(vec![2]));
    assert_eq!(store.get(&other.text(), "a/x.t3x"), Ok(vec![3]));
}

#[test]
fn store_refuses_bad_puts() {
    let mut store = ArtifactStore::new(false);
    let token = Token::generate();
    assert_eq!(store.put(&token, "a/x", Vec::new()), Err(StoreError::EmptyPayload));
    assert_eq!(store.put(&token, "../x", vec![1]), Err(StoreError::Forbidden));
    assert_eq!(store.put(&token, "/etc/x", vec![1]), Err(StoreError::Forbidden));
    assert_eq!(store.get(&token.text(), "a/x"), Err(RetrievalError::NotFound));
}

#[test]
fn parent_path_is_forbidden() {
    let mut store = ArtifactStore::new(false);
    let token = Token::generate();
    store.put(&token, "ctr/game.3dsx", vec![1]).unwrap();
    let text = token.text();
    assert_eq!(store.get(&text, "ctr/../ctr/game.3dsx"), Err(RetrievalError::Forbidden));
    assert_eq!(store.get(&text, ".."), Err(RetrievalError::Forbidden));
    assert_eq!(store.get(&text, "../../etc/passwd"), Err(RetrievalError::Forbidden));
    assert_eq!(store.get(&text, "ctr\\..\\x"), Err(RetrievalError::Forbidden));
    assert_eq!(store.get(&text, "/etc/passwd"), Err(RetrievalError::Forbidden));
    assert_eq!(store.get(&text, "ctr/game..3dsx"), Err(RetrievalError::NotFound));
    assert_eq!(RetrievalError::Forbidden.status_code(), 403);
    assert_eq!(RetrievalError::NotFound.status_code(), 404);
    assert_eq!(RetrievalError::BadRequest.status_code(), 400);
}

#[test]
fn malformed_token_is_bad_request() {
    let mut store = ArtifactStore::new(false);
    assert_eq!(store.get("not-a-token", "ctr/game.3dsx"), Err(RetrievalError::BadRequest));
    assert_eq!(store.get("", "../x"), Err(RetrievalError::BadRequest));
    let token = Token::generate();
    assert_eq!(store.get(&token.text(), ""), Err(RetrievalError::BadRequest));
}

#[test]
fn token_text_round_trip() {
    let token = Token { value: 0xa1a2a3a4b1b2c1c2d1d2d3d4d5d6d7d8 };
    assert_eq!(token.text(), "a1a2a3a4-b1b2-c1c2-d1d2-d3d4d5d6d7d8");
    assert_eq!(Token::parse("a1a2a3a4-b1b2-c1c2-d1d2-d3d4d5d6d7d8"), Some(token));
    assert_eq!(Token::parse("a1a2a3a4-b1b2"), None);
    let fresh = Token::generate();
    assert_ne!(fresh, Token::generate());
    assert_eq!((fresh.value >> 76) & 0xF, 4);
    assert_eq!((fresh.value >> 62) & 0x3, 2);
    assert_eq!(&fresh.text()[14..15], "4");
    assert_eq!(Token::parse(&fresh.text()), Some(fresh));
}

#[test]
fn manifest_json() {
    let token = Token { value: 0x67e5504410b1426f9247bb680e5fe0c8 };
    let mut response = ArtifactResponse::new(token);
    response.add_file("ctr/game.3dsx");
    response.add_file("hac\\game.nro");
    assert_eq!(response.files, strings(&["ctr/game.3dsx", "hac/game.nro"]));
    assert_eq!(
        response.json().unwrap(),
        "{\"files\":[\"ctr/game.3dsx\",\"hac/game.nro\"],\"token\":\"67e55044-10b1-426f-9247-bb680e5fe0c8\"}"
    );
}

#[test]
fn conversion_job_for_image() {
    let job = prepare_conversion(&png(16, 16), "/tmp/t", "sprites", "hero.png").unwrap();
    assert_eq!(job.kind, AssetKind::Image);
    assert_eq!(job.plan.input, "/tmp/t/sprites/hero.png");
    assert_eq!(job.plan.output, "/tmp/t/sprites/hero.t3x");
    assert_eq!(job.plan.relative_output, "sprites/hero.t3x");
    assert_eq!(job.plan.call.program, "tex3ds");
    assert_eq!(
        job.plan.call.args,
        strings(&["-f", "rgba", "/tmp/t/sprites/hero.png", "-o", "/tmp/t/sprites/hero.t3x"])
    );
}

#[test]
fn conversion_job_refusals() {
    assert!(matches!(prepare_conversion(&[], "/r", "a", "x.png"), Err(JobError::InvalidAsset)));
    assert!(matches!(prepare_conversion(b"garbage", "/r", "a", "x.png"), Err(JobError::InvalidAsset)));
    assert!(matches!(prepare_conversion(&png(8, 8), "/r", "../a", "x.png"), Err(JobError::UnsafePath)));
    assert!(matches!(prepare_conversion(&png(8, 8), "/r", "a", "../x.png"), Err(JobError::UnsafePath)));
}

#[test]
fn compile_job_for_ctr() {
    let job = prepare_compile(Platform::Ctr, "/r/tok", &metadata("Game"), &png(64, 64)).unwrap();
    let plan = &job.plan;
    assert_eq!(plan.directory, "/r/tok/ctr");
    assert_eq!(plan.icon, "/r/tok/ctr/icon.bin");
    assert_eq!(plan.output, "/r/tok/ctr/Game.3dsx");
    assert_eq!(plan.relative_output, "ctr/Game.3dsx");
    assert_eq!(plan.steps.len(), 2);
    assert_eq!(plan.steps[0].program, "smdhtool");
    assert_eq!(
        plan.steps[0].args,
        strings(&["--create", "Game", "Desc", "Author", "/r/tok/ctr/icon.bin", "/r/tok/ctr/Game.smdh"])
    );
    assert_eq!(plan.steps[1].program, "3dsxtool");
    assert_eq!(
        plan.steps[1].args,
        strings(&[
            "resources/ctr/lovepotion.elf",
            "/r/tok/ctr/Game.3dsx",
            "--smdh=/r/tok/ctr/Game.smdh",
            "--romfs=resources/ctr/files.romfs",
        ])
    );
    assert_eq!(&job.icon[..8], b"\x89PNG\r\n\x1a\n");
}

#[test]
fn compile_job_for_hac_and_cafe() {
    let job = prepare_compile(Platform::Hac, "/r", &metadata("G"), &png(64, 64)).unwrap();
    assert_eq!(job.plan.steps[0].program, "nacptool");
    assert_eq!(job.plan.steps[0].args, strings(&["--create", "G", "Author", "1.0.0", "/r/hac/G.nacp"]));
    assert_eq!(job.plan.steps[1].program, "elf2nro");
    assert_eq!(
        job.plan.steps[1].args,
        strings(&[
            "resources/hac/lovepotion.elf",
            "/r/hac/G.nro",
            "--icon=/r/hac/icon.bin",
            "--nacp=/r/hac/G.nacp",
            "--romfs=resources/hac/files.romfs",
        ])
    );
    assert_eq!(&job.icon[..2], &[0xFF, 0xD8]);

    let job = prepare_compile(Platform::Cafe, "/r", &metadata("G"), &png(64, 64)).unwrap();
    assert_eq!(job.plan.steps[0].program, "elf2rpl");
    assert_eq!(job.plan.steps[0].args, strings(&["resources/cafe/lovepotion.elf", "/r/cafe/G.rpx"]));
    assert_eq!(job.plan.steps[1].program, "wuhbtool");
    assert_eq!(
        job.plan.steps[1].args,
        strings(&[
            "/r/cafe/G.rpx",
            "/r/cafe/G.wuhb",
            "--content=resources/cafe/files.romfs",
            "--name=G",
            "--short-name=G",
            "--author=Author",
            "--icon=/r/cafe/icon.bin",
        ])
    );
    assert_eq!(job.plan.relative_output, "cafe/G.wuhb");
}

#[test]
fn compile_job_refusals() {
    assert!(matches!(prepare_compile(Platform::Ctr, "/r", &metadata("../x"), &png(8, 8)), Err(JobError::UnsafePath)));
    assert!(matches!(prepare_compile(Platform::Ctr, "/r", &metadata(""), &png(8, 8)), Err(JobError::UnsafePath)));
    assert!(matches!(prepare_compile(Platform::Hac, "/r", &metadata("G"), b"no icon"), Err(JobError::InvalidAsset)));
}

#[test]
fn archive_keeps_paths() {
    let mut zip = ZipFile::new();
    assert_eq!(zip.add_file("a/x.t3x", &[]), Err(ArchiveError::EmptyFile));
    assert_eq!(zip.add_file("../x", &[1]), Err(ArchiveError::UnsafePath));
    assert_eq!(zip.file_count(), 0);
    assert_eq!(zip.add_file("sprites/hero.t3x", &[1, 2, 3]), Ok(()));
    assert_eq!(zip.file_count(), 1);
    let bytes = zip.finish().unwrap();
    assert_eq!(&bytes[..2], b"PK");
    let mut archive = zip::ZipArchive::new(std::io::Cursor::new(bytes)).unwrap();
    assert_eq!(archive.len(), 1);
    let mut entry = archive.by_name("sprites/hero.t3x").unwrap();
    let mut content = Vec::new();
    std::io::Read::read_to_end(&mut entry, &mut content).unwrap();
    assert_eq!(content, vec![1, 2, 3]);
}

#[test]
fn archive_refuses_duplicate_names() {
    let mut zip = ZipFile::new();
    assert_eq!(zip.add_file("a/x.t3x", &[1]), Ok(()));
    assert_eq!(zip.add_file("a/x.t3x", &[2]), Err(ArchiveError::WriteFailed));
    assert_eq!(zip.file_count(), 1);
}

#[test]
fn empty_archive_finishes() {
    let bytes = ZipFile::new().finish().unwrap();
    assert_eq!(&bytes[..4], b"PK\x05\x06");
}

#[test]
fn manifest_json_escapes() {
    let token = Token { value: 1 };
    let mut response = ArtifactResponse::new(token);
    response.add_file("a\"b\tc");
    assert_eq!(
        response.json().unwrap(),
        "{\"files\":[\"a\\\"b\\tc\"],\"token\":\"00000000-0000-0000-0000-000000000001\"}"
    );
    assert_eq!(ArtifactResponse::new(token).json().unwrap(), "{\"files\":[],\"token\":\"00000000-0000-0000-0000-000000000001\"}");
}

#[test]
fn outcomes_follow_plans() {
    let job = prepare_compile(Platform::Hac, "/r", &metadata("G"), &png(8, 8)).unwrap();
    match compile_outcome(&job, Some(vec![7])) {
        JobOutcome::Produced(o) => assert_eq!(o.path, "hac/G.nro"),
        JobOutcome::Failed(_) => panic!("expected an output"),
    }
    assert!(matches!(compile_outcome(&job, None), JobOutcome::Failed(JobError::PackagingFailed)));
    let job = prepare_conversion(&png(8, 8), "/r", "img", "a.png").unwrap();
    match conversion_outcome(&job, Some(vec![7])) {
        JobOutcome::Produced(o) => assert_eq!(o.path, "img/a.t3x"),
        JobOutcome::Failed(_) => panic!("expected an output"),
    }
    assert!(matches!(conversion_outcome(&job, Some(Vec::new())), JobOutcome::Failed(JobError::ConversionFailed)));
}

#[test]
fn empty_buffer_is_not_an_image() {
    assert_eq!(Image::is_valid(&[]), Err(AssetError::UnreadableImage));
}

#[test]
fn archive_of_partial_build() {
    let result = aggregate(3, vec![produced("ctr/g.3dsx", b"1"), produced("hac/g.nro", b"22")]);
    let zip = pack_outputs(&result).unwrap();
    assert_eq!(zip.file_count(), 2);
    let bytes = zip.finish().unwrap();
    let archive = zip::ZipArchive::new(std::io::Cursor::new(bytes)).unwrap();
    assert_eq!(archive.len(), 2);
}

#[test]
fn repeated_targets_in_any_case_run_once() {
    let plan = plan_targets(&strings(&["ctr", "hac", "ctr"])).unwrap();
    assert_eq!(plan.platforms, vec![Platform::Ctr, Platform::Hac]);
    let plan = plan_targets(&strings(&["ctr", "CTR"])).unwrap();
    assert_eq!(plan.platforms, vec![Platform::Ctr]);
}

#[test]
fn jpeg_magic_without_image_is_not_an_image() {
    assert_eq!(Image::is_valid(&[0xFF, 0xD8, 0xFF, 0x00]), Err(AssetError::UnreadableImage));
    assert_eq!(Image::is_valid(&[0xFF, 0xD8]), Err(AssetError::UnreadableImage));
    assert!(Icon::from_bytes(&Platform::Ctr, &[]).is_none());
}
