use gpr_converter::config::{adjust_quality, ConversionConfig, OutputFormat};
use gpr_converter::converter::ConvertError;
use gpr_converter::files::GprFile;
use gpr_converter::shell::{text_le_exec, App, AppState, DirEntry, MainMenuItem, ShellRequest};

#[test]
fn quality_display_depends_on_format() {
    let mut c = ConversionConfig::default();
    assert_eq!(c.quality_display(), "95%");
    c.output_format = OutputFormat::Png;
    assert_eq!(c.quality_display(), "N/A");
    assert_eq!(OutputFormat::Jpeg.as_str(), "JPEG");
    assert_eq!(OutputFormat::Png.extension(), "png");
}

#[test]
fn quality_stays_clamped_under_repeated_adjustment() {
    for start in 0..=255u8 {
        let mut q = start;
        for step in 0..60 {
            let delta = if step % 7 < 4 { 1 } else { -1 };
            q = adjust_quality(q, delta);
            assert!((1..=100).contains(&q));
        }
    }
    assert_eq!(adjust_quality(98, 1), 100);
    assert_eq!(adjust_quality(3, -1), 1);
    assert_eq!(adjust_quality(50, 2), 60);
    assert_eq!(adjust_quality(200, i32::MIN), 1);
}

#[test]
fn menu_wraps_both_ways() {
    let mut app = App::new("/".to_string());
    assert_eq!(MainMenuItem::all().len(), 5);
    app.previous_menu_item();
    assert_eq!(app.main_menu_index, 4);
    app.next_menu_item();
    assert_eq!(app.main_menu_index, 0);
    assert_eq!(MainMenuItem::BrowseFiles.as_str(), "Browse and Convert Files");
}

#[test]
fn browsing_lists_directories_and_gpr_files_in_order() {
    let mut app = App::new("/data".to_string());
    assert!(matches!(app.select_menu_item(), ShellRequest::ListDirectory));
    assert_eq!(app.state, AppState::FileBrowser);
    let entries = vec![
        DirEntry { path: "/data/b.GPR".to_string(), is_dir: false },
        DirEntry { path: "/data/notes.txt".to_string(), is_dir: false },
        DirEntry { path: "/data/a".to_string(), is_dir: true },
        DirEntry { path: "/data/c.gpr".to_string(), is_dir: false },
    ];
    app.load_directory(entries);
    let paths: Vec<&str> = app.files.iter().map(|e| e.path.as_str()).collect();
    assert_eq!(paths, vec!["/data/a", "/data/b.GPR", "/data/c.gpr"]);
    app.next_file();
    match app.select_file() {
        ShellRequest::OpenFile(p) => assert_eq!(p, "/data/b.GPR"),
        _ => panic!("expected a file to open"),
    }
    app.previous_file();
    assert!(matches!(app.select_file(), ShellRequest::ListDirectory));
    assert_eq!(app.current_directory, "/data/a");
    assert!(matches!(app.go_to_parent_directory(), ShellRequest::ListDirectory));
    assert_eq!(app.current_directory, "/data");
}

#[test]
fn unavailable_menu_entries_show_an_error() {
    let mut app = App::new("/".to_string());
    app.next_menu_item();
    assert!(matches!(app.select_menu_item(), ShellRequest::Nothing));
    assert_eq!(app.state, AppState::Error);
    assert_eq!(app.error_message.as_deref(), Some("Batch convert not yet implemented"));
    app.back_to_main_menu();
    app.next_menu_item();
    app.next_menu_item();
    assert_eq!(app.main_menu_index, 3);
    app.select_menu_item();
    assert_eq!(app.error_message.as_deref(), Some("Help screen not yet implemented"));
    app.back_to_main_menu();
    assert_eq!(app.state, AppState::MainMenu);
    assert!(app.error_message.is_none());
}

#[test]
fn conversion_flow() {
    let mut app = App::new("/".to_string());
    assert!(matches!(app.start_conversion(), ShellRequest::Nothing));
    app.open_file(GprFile::new("/x/a.gpr".to_string(), 1));
    assert_eq!(app.state, AppState::FileInfo);
    app.go_to_conversion_config();
    app.next_config_option();
    app.adjust_config_option(1);
    assert_eq!(app.conversion_config.quality, 100);
    app.adjust_config_option(-3);
    assert_eq!(app.conversion_config.quality, 85);
    app.previous_config_option();
    app.adjust_config_option(1);
    assert_eq!(app.conversion_config.output_format, OutputFormat::Png);
    app.next_config_option();
    app.adjust_config_option(1);
    assert_eq!(app.conversion_config.quality, 85);
    app.next_config_option();
    app.adjust_config_option(1);
    assert!(!app.conversion_config.preserve_metadata);
    assert!(matches!(app.start_conversion(), ShellRequest::Convert));
    assert_eq!(app.state, AppState::Converting);
    app.finish_conversion(Ok("/x/a.png".to_string()));
    assert_eq!(app.state, AppState::Complete);
    assert_eq!(app.conversion_progress, 100);
    assert_eq!(app.success_message.as_deref(), Some("Conversion completed successfully!\n\nOutput: /x/a.png"));
    app.finish_conversion(Err(ConvertError::Decode));
    assert_eq!(app.state, AppState::Error);
    assert_eq!(app.error_message.as_deref(), Some("Conversion failed: Failed to convert GPR to RGB"));
    app.cancel_conversion();
    assert_eq!(app.state, AppState::ConversionConfig);
    app.back_to_file_info();
    app.back_to_file_browser();
    assert!(app.selected_file.is_none());
}

#[test]
fn paths_order_by_character_code() {
    assert!(text_le_exec("a", "ab"));
    assert!(text_le_exec("ab", "ab"));
    assert!(!text_le_exec("b", "ab"));
    assert!(text_le_exec("Z", "a"));
    assert!(!text_le_exec("\u{e9}", "z"));
    let mut app = App::new("/d".to_string());
    app.load_directory(vec![
        DirEntry { path: "/d/\u{e9}t\u{e9}".to_string(), is_dir: true },
        DirEntry { path: "/d/zz.gpr".to_string(), is_dir: false },
        DirEntry { path: "/d/Zed".to_string(), is_dir: true },
    ]);
    let paths: Vec<&str> = app.files.iter().map(|e| e.path.as_str()).collect();
    let mut expected = vec!["/d/\u{e9}t\u{e9}", "/d/zz.gpr", "/d/Zed"];
    expected.sort();
    assert_eq!(paths, expected);
}

#[test]
fn starting_without_a_file_changes_nothing() {
    let mut app = App::new("/".to_string());
    app.finish_conversion(Err(ConvertError::Encode));
    let before = (app.state, app.error_message.clone(), app.conversion_progress, app.config_option_index);
    assert!(matches!(app.start_conversion(), ShellRequest::Nothing));
    assert_eq!((app.state, app.error_message.clone(), app.conversion_progress, app.config_option_index), before);
}
