use destinypedia::fetch::cli::{DownloadArgs, FileInput, StdinInput};
use destinypedia::fetch::download::{
    chunk_bytes_fit, chunk_images, chunk_total_bytes, confirm_kib_fits, confirm_summary, confirm_text, confirm_total_kib,
    filename_from_title, get_download_size, input_step, merge_validated, output_dir_choice,
    validations, worker_chunk_size, InputStep, OutputDir, Validation,
};
use destinypedia::fetch::error::DestinyFetchError;
use destinypedia::fetch::rows::{Ext, ImagesRow};

fn image(id: i64, size: i64) -> ImagesRow {
    ImagesRow {
        id,
        title: format!("Image {}", id),
        size,
        width: 10,
        height: 20,
        url: String::new(),
        timestamp: 0,
        extension: Ext::PNG,
    }
}

#[test]
fn worker_chunk_sizes() {
    assert_eq!(worker_chunk_size(0), 4);
    assert_eq!(worker_chunk_size(43), 4);
    assert_eq!(worker_chunk_size(44), 8);
    assert_eq!(worker_chunk_size(87), 8);
    assert_eq!(worker_chunk_size(88), 16);
    assert_eq!(worker_chunk_size(1000), 128);
    for n in [0usize, 1, 43, 44, 45, 88, 89, 1000, 123457] {
        let c = worker_chunk_size(n);
        assert!(n / c <= 10);
        assert!(c == 4 || n / (c / 2) > 10);
    }
}

#[test]
fn chunks_keep_every_image_in_order() {
    let images: Vec<ImagesRow> = (0..10).map(|i| image(i, 1)).collect();
    let chunks = chunk_images(images.clone(), 4);
    assert_eq!(chunks.iter().map(|c| c.len()).collect::<Vec<_>>(), vec![4, 4, 2]);
    let flat: Vec<ImagesRow> = chunks.into_iter().flatten().collect();
    assert_eq!(flat, images);
    assert!(chunk_images(vec![], 4).is_empty());
    assert_eq!(chunk_images((0..8).map(|i| image(i, 1)).collect(), 4).len(), 2);
}

#[test]
fn byte_totals() {
    let chunk = vec![image(1, 2), image(2, 3)];
    assert_eq!(chunk_total_bytes(&chunk), 5 * 1024);
    assert_eq!(chunk_total_bytes(&[image(1, 2), image(2, -5)]), 0);
    assert_eq!(get_download_size(&[image(1, 2), image(2, -5), image(3, 1)]), 3 * 1024);
    assert_eq!(get_download_size(&[]), 0);
}

#[test]
fn confirmation_summary() {
    let images = vec![image(1, 2048), image(2, -7), image(3, 1024)];
    assert_eq!(confirm_total_kib(&images), 3072);
    assert_eq!(confirm_summary(&images), Some((3, 3)));
    assert_eq!(confirm_summary(&[image(1, 0), image(2, -1)]), None);
    assert_eq!(confirm_text(&image(5, 300)), "\t(5), Image 5, 10x20, 300KiB");
}

#[test]
fn file_names_from_titles() {
    assert_eq!(filename_from_title("  Clash of the Hive Gods.jpg ", Ext::JPG), "Clash_of_the_Hive_Gods.jpg");
    assert_eq!(filename_from_title("Crota.v2.final.png", Ext::PNG), "Crota.png");
    assert_eq!(filename_from_title("Mystery file.bin", Ext::UNKNOWN), "Mystery_file");
    assert_eq!(filename_from_title("Grimoire The Hive", Ext::WEBP), "Grimoire_The_Hive.webp");
    assert_eq!(filename_from_title("   ", Ext::PNG), "");
    assert_eq!(filename_from_title(".hidden", Ext::PNG), "");
}

fn args() -> DownloadArgs {
    DownloadArgs::default()
}

#[test]
fn first_step_of_a_download() {
    let mut a = args();
    assert_eq!(input_step(&a), Ok(InputStep::Prompt));
    a.noconfirm = true;
    assert_eq!(input_step(&a), Err(DestinyFetchError::MissingArgErr));
    a.input = Some(StdinInput::default());
    assert_eq!(input_step(&a), Ok(InputStep::Proceed));
    assert!(!a.no_input());
}

#[test]
fn checks_to_run() {
    let mut a = args();
    assert_eq!(validations(&a), Err(DestinyFetchError::MissingArgErr));
    a.input = Some(StdinInput {
        titles: Some(vec!["A".into()]),
        ids: Some(vec![3, 65535]),
        in_category: Some("Raids".into()),
    });
    a.input_file = Some(FileInput { titles_input: Some("t.txt".into()), ids_input: None, from_cached: None });
    assert_eq!(
        validations(&a),
        Ok(vec![
            Validation::Titles(vec!["A".into()]),
            Validation::Ids(vec![3, 65535]),
            Validation::Category("Raids".into()),
        ])
    );
    a.input = None;
    a.input_file = Some(FileInput { titles_input: Some("t.txt".into()), ids_input: Some("i.txt".into()), from_cached: None });
    assert_eq!(
        validations(&a),
        Ok(vec![Validation::TitlesFile("t.txt".into()), Validation::IdsFile("i.txt".into())])
    );
}

#[test]
fn merging_checked_images() {
    let mut images = vec![image(1, 1)];
    assert_eq!(merge_validated(&mut images, Ok(vec![image(2, 1)])), Ok(()));
    assert_eq!(images.len(), 2);
    assert_eq!(merge_validated(&mut images, Err(DestinyFetchError::Unknown)), Err(DestinyFetchError::Quit));
    assert_eq!(
        merge_validated(&mut images, Err(DestinyFetchError::NoMatchingImages)),
        Err(DestinyFetchError::NoMatchingImages)
    );
    assert_eq!(images.len(), 2);
}

#[test]
fn where_to_save() {
    let mut a = args();
    assert_eq!(output_dir_choice(&a), OutputDir::Prompt);
    a.noconfirm = true;
    assert_eq!(output_dir_choice(&a), OutputDir::WorkingDir);
    a.output_dir = Some("/tmp".into());
    assert_eq!(output_dir_choice(&a), OutputDir::Given("/tmp".into()));
}

#[test]
fn overflow_checks_before_adding_sizes() {
    assert!(chunk_bytes_fit(&[image(1, 10), image(2, -3)]));
    assert!(!chunk_bytes_fit(&[image(1, i64::MAX / 1024 + 1)]));
    assert!(!chunk_bytes_fit(&[image(1, i64::MAX / 1024), image(2, i64::MAX / 1024)]));
    assert!(chunk_bytes_fit(&[image(1, i64::MAX / 1024), image(2, -(i64::MAX / 1024))]));
    assert!(confirm_kib_fits(&[image(1, i64::MAX), image(2, i64::MAX), image(3, -5)]));
    assert!(!confirm_kib_fits(&[image(1, i64::MAX), image(2, i64::MAX), image(3, 2)]));
}
