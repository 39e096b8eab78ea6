use rakukan_tsf::ai_window::{
    AiView, Geometry, caret_gap, draw_text, drawn_text, measure_plan, pulse_start, show_impl,
};
use rakukan_tsf::composition::{CompositionWrapper, composition_set_with_dm};
use rakukan_tsf::config::InputConfig;
use rakukan_tsf::display_attr::{
    Atoms, EnumDisplayAttrInfo, LineStyle, atom_converted, atom_input, get_by_guid, make_all,
    set_atoms,
};
use rakukan_tsf::doc_mode::ModeStore;
use rakukan_tsf::globals::{
    DllModule, GUID_DISPLAY_ATTRIBUTE, GUID_DISPLAY_ATTRIBUTE_INPUT, GUID_PROFILE,
};
use rakukan_tsf::icon::{mode_icon_dpi, mode_icon_mask, mode_icon_pixels, mode_icon_size};
use rakukan_tsf::ime_mode::ImeMode;
use rakukan_tsf::language_bar::{
    LANGBAR_SINK_COOKIE, MenuCommand, MenuItem, SinkError, advise_sink, get_open_close,
    handle_langbar_menu_command, langbar_menu, langbar_mode_char, make_langbar_info,
    open_close_value, toggle_open_close, tooltip, unadvise_sink,
};
use rakukan_tsf::mode_indicator::{
    FONT_HEIGHT, Indicator, WIN_SIZE, calc_window_position, hide_indicator, indicator_colors,
    indicator_label, is_visible, position_in_work_area, scaled, show,
};
use rakukan_tsf::rect::{CaretRect, Rect, caret_rect_get, caret_rect_set};
use rakukan_tsf::service::{
    ActivateStep, NullThreadMgr, TextServiceState, Unadvise, activate, deactivate,
    deactivate_session, initial_mode, maybe_reload_runtime_config, on_kill_thread_focus,
    registered,
};
use rakukan_tsf::session::SessionState;
use rakukan_tsf::settings_launcher::{SettingsPlace, launch_error_text, launch_settings_app};
use rakukan_tsf::status_menu::{
    EngineHealth, last_conversion, lines, log_tail, log_tail_start, number, speed_label,
};
use rakukan_tsf::theme::{
    RegistryValue, Surface, is_light, is_light_mode, observe_theme, palette,
};
use rakukan_tsf::tray_ipc::{clear, encode, publish};
use rakukan_tsf::wide::{from_wide, to_wide_menu_text, to_wide_z, wides_to_string};

fn rect(left: i32, top: i32, right: i32, bottom: i32) -> Rect {
    Rect { left, top, right, bottom }
}

#[test]
fn scales_indicator_and_keeps_it_inside_work_area() {
    let work = Rect {
        left: -1920,
        top: 0,
        right: 0,
        bottom: 1080,
    };
    for (dpi, size, font) in [(96, 32, 22), (144, 48, 33), (192, 64, 44)] {
        assert_eq!(scaled(WIN_SIZE, dpi), size);
        assert_eq!(scaled(FONT_HEIGHT, dpi), font);
        assert_eq!(position_in_work_area(-500, 300, dpi, work), (-500, 300));
        let (x, y) = position_in_work_area(-1, 1070, dpi, work);
        assert_eq!(x + size, work.right);
        assert!(y + size < 1070);
        assert!(y >= work.top);
    }
    assert_eq!(scaled(WIN_SIZE, 0), 32);
}

#[test]
fn app_and_taskbar_use_independent_settings() {
    assert_eq!(Surface::App.value_name(), "AppsUseLightTheme");
    assert_eq!(Surface::Taskbar.value_name(), "SystemUsesLightTheme");
    assert!(Surface::App.default_light());
    assert!(!Surface::Taskbar.default_light());
}

fn luminance(color: u32) -> f64 {
    let component = |shift: u32| {
        let c = ((color >> shift) & 255u32) as f64 / 255.;
        if c <= 0.04045 {
            c / 12.92
        } else {
            ((c + 0.055) / 1.055).powf(2.4)
        }
    };
    0.2126 * component(0) + 0.7152 * component(8) + 0.0722 * component(16)
}

#[test]
fn both_palettes_have_readable_text_in_every_row() {
    for light in [true, false] {
        let p = palette(light);
        for (fg, bg) in [
            (p.foreground, p.background),
            (p.selected_foreground, p.selected_background),
            (p.secondary, p.pager_background),
            (p.secondary, p.status_background),
        ] {
            let (a, b) = (luminance(fg), luminance(bg));
            assert!((a.max(b) + 0.05) / (a.min(b) + 0.05) >= 4.5);
        }
    }
}

#[test]
fn empty_text_never_enters_gdi_and_has_zero_measured_extent() {
    let mut rect = Rect {
        left: 10,
        top: 20,
        right: 400,
        bottom: 200,
    };
    assert_eq!(draw_text(&[], &mut rect, true), Some(0));
    assert_eq!(rect.right, rect.left);
    assert_eq!(rect.bottom, rect.top);
    let before = rect;
    assert_eq!(draw_text(&[], &mut rect, false), Some(0));
    assert_eq!(rect, before);
}

#[test]
fn speed_uses_latest_complete_success_without_exposing_input() {
    let text = "2026-09-09T10:00:00Z INFO beam conversion done reading_chars=8 elapsed_ms=1500\n2026-09-09T10:01:00Z INFO beam conversion done reading_chars=3 elapsed_ms=67\nother event elapsed_ms=1\n";
    assert_eq!(
        last_conversion(text),
        Some((67, 3, "2026-09-09T10:01:00Z".into()))
    );
    assert_eq!(last_conversion("beam conversion done elapsed_ms=bad"), None);
    assert_eq!(speed_label(200), "速い目安");
    assert_eq!(speed_label(201), "待ち時間あり");
    assert_eq!(speed_label(1000), "遅い目安");
}

#[test]
fn text_is_handed_to_the_drawing_functions_when_there_is_some() {
    let mut r = rect(0, 0, 9, 9);
    assert_eq!(draw_text(&[0x41], &mut r, true), None);
    assert_eq!(r, rect(0, 0, 9, 9));
    assert_eq!(drawn_text("つ", true), "つ│");
    assert_eq!(drawn_text("つ", false), "つ");
    assert_eq!(caret_gap(96), 3);
    assert_eq!(caret_gap(144), 5);
    assert_eq!(caret_gap(0), 3);
    assert_eq!(pulse_start(Some((true, 5)), true, 9), 5);
    assert_eq!(pulse_start(Some((false, 5)), true, 9), 9);
    assert_eq!(pulse_start(None, true, 9), 9);
}

#[test]
fn instructions_grow_to_the_right_at_text_height() {
    for height in [20, 30, 40] {
        let view = AiView {
            geometry: Geometry {
                caret: rect(100, 100, 102, 100 + height),
                lines: vec![],
                viewport: rect(0, 0, 1000, 800),
            },
            text: String::new(),
            replace: false,
            busy: false,
            editing: true,
        };
        let plan = measure_plan(&view, 96);
        assert!(plan.font_height < height);
        assert_eq!(plan.anchor.left, 105);
        let mut previous_width = 0;
        for chars in 0..4 {
            let measured = height / 2 + chars * height;
            let layout = show_impl(&view, &plan, measured, 10, None, None, false);
            assert_eq!(layout.bounds.left, 105);
            assert_eq!(layout.bounds.top, 100);
            assert_eq!(layout.bounds.bottom - layout.bounds.top, height);
            let width = layout.bounds.right - layout.bounds.left;
            assert!(width > previous_width);
            if chars == 0 {
                assert!(width <= height);
            }
            assert_eq!(layout.alpha, 185);
            previous_width = width;
        }
    }
}

#[test]
fn replaced_lines_are_masked_and_the_rest_is_not() {
    let first = rect(100, 100, 300, 120);
    let second = rect(100, 160, 250, 180);
    let view = |replace| AiView {
        geometry: Geometry {
            caret: rect(250, 160, 251, 180),
            lines: vec![first, second],
            viewport: rect(0, 0, 1800, 1000),
        },
        text: "明日は晴れるでしょう。".into(),
        replace,
        busy: false,
        editing: !replace,
    };
    let v = view(true);
    let plan = measure_plan(&v, 96);
    assert_eq!(plan.font_height, 20);
    let layout = show_impl(&v, &plan, 220, 20, None, Some(rect(0, 0, 1800, 1000)), false);
    assert_eq!(layout.masks.len(), 3);
    assert_eq!(layout.masks[0], rect(98, 98, 302, 122));
    assert_eq!(layout.masks[1], rect(98, 158, 252, 182));
    assert_eq!(layout.masks[2], layout.pool);
    assert_eq!(layout.alpha, 255);
    assert_eq!((layout.mask_rounding, layout.pool_rounding), (4, 20));
    assert!(layout.bounds.left <= 98 && layout.bounds.bottom >= 182);
    let v = view(false);
    let plan = measure_plan(&v, 96);
    let layout = show_impl(&v, &plan, 220, 20, None, None, false);
    assert_eq!(layout.masks, [layout.pool]);
}

#[test]
fn a_replaced_text_is_measured_wherever_the_caret_is() {
    let view = AiView {
        text: "橋".into(),
        geometry: Geometry {
            caret: rect(0, 0, i32::MAX, 20),
            lines: vec![rect(100, 100, 300, 120)],
            viewport: rect(0, 0, 1800, 1000),
        },
        replace: true,
        busy: false,
        editing: false,
    };
    let plan = measure_plan(&view, 96);
    assert_eq!(plan.anchor.left, 100);
    assert_eq!(plan.font_height, 20);
}

#[test]
fn the_pool_moves_gently_and_stays_on_the_screen() {
    let view = AiView {
        geometry: Geometry {
            caret: rect(100, 100, 102, 120),
            lines: vec![],
            viewport: rect(0, 0, 1000, 800),
        },
        text: String::new(),
        replace: false,
        busy: false,
        editing: true,
    };
    let plan = measure_plan(&view, 96);
    let still = show_impl(&view, &plan, 100, 10, None, None, true);
    assert_eq!(still.pool, rect(105, 100, 211, 120));
    let from = Some(rect(105, 100, 151, 120));
    let moving = show_impl(&view, &plan, 100, 10, from, None, true);
    assert_eq!(moving.pool.right, 181);
    let back = show_impl(&view, &plan, 40, 10, Some(still.pool), None, true);
    assert_eq!(back.pool.right, 181);
    let hidden = show_impl(&view, &plan, 100, 10, from, None, false);
    assert_eq!(hidden.pool.right, 211);
    let edge = show_impl(&view, &plan, 100, 10, None, Some(rect(0, 0, 150, 110)), false);
    assert_eq!(edge.pool, rect(44, 90, 150, 110));
    assert_eq!(edge.text_rect, rect(3, 3, 103, 20));
}

#[test]
fn icons_are_smooth_and_premultiplied() {
    for size in [16usize, 20, 24, 32] {
        let high = size * 4;
        let mut source = vec![0u8; high * high * 4];
        for y in 0..high {
            for x in 0..high {
                let (dx, dy) = (x as i64 - high as i64 / 2, y as i64 - high as i64 / 2);
                if dx * dx + dy * dy < (high as i64 / 3) * (high as i64 / 3) {
                    source[(y * high + x) * 4] = 255;
                }
            }
        }
        for light in [false, true] {
            let pixels = mode_icon_pixels(&source, size, light);
            assert_eq!(pixels.len(), size * size * 4);
            assert_eq!(pixels[3], 0);
            assert!(pixels.chunks_exact(4).any(|p| p[3] == 255));
            assert!(pixels.chunks_exact(4).any(|p| p[3] > 0 && p[3] < 255));
            assert!(pixels.chunks_exact(4).all(|p| p[0] <= p[3] && p[1] <= p[3] && p[2] <= p[3]));
            assert!(pixels.chunks_exact(4).all(|p| !light || p[0] == 0));
            let mask = mode_icon_mask(&pixels, size);
            let stride = (size + 15) / 16 * 2;
            assert_eq!(mask.len(), stride * size);
            for y in 0..size {
                for x in 0..size {
                    let clear = mask[y * stride + x / 8] & (0x80 >> (x % 8)) != 0;
                    assert_eq!(clear, pixels[(y * size + x) * 4 + 3] == 0);
                }
            }
        }
    }
    let mut one = vec![0u8; 64];
    one[0] = 100;
    one[4] = 60;
    assert_eq!(mode_icon_pixels(&one, 1, false), [10, 10, 10, 10]);
    assert_eq!(mode_icon_mask(&vec![0, 0, 0, 10], 1), [0x7f, 0xff]);
    assert_eq!(mode_icon_size(8), 16);
    assert_eq!(mode_icon_size(200), 128);
    assert_eq!(mode_icon_size(24), 24);
    assert_eq!(mode_icon_dpi(Some(144), 96), 144);
    assert_eq!(mode_icon_dpi(Some(0), 120), 120);
    assert_eq!(mode_icon_dpi(None, 0), 96);
}

#[test]
fn wide_text_survives_both_ways() {
    let text = "IME オン 𠮷";
    let wide = to_wide_z(text);
    assert_eq!(wide.last(), Some(&0));
    assert_eq!(wide[..wide.len() - 1], text.encode_utf16().collect::<Vec<_>>());
    assert_eq!(to_wide_menu_text(text), wide);
    assert_eq!(wides_to_string(&wide), text);
    assert_eq!(wides_to_string(&[0x41, 0, 0x42]), "A");
    assert_eq!(wides_to_string(&[0x41, 0xD800, 0x42]), String::from_utf16_lossy(&[0x41, 0xD800, 0x42]));
    assert_eq!(from_wide(&[0xDC00]), "\u{FFFD}");
    assert_eq!(from_wide(&[0xD842]), "\u{FFFD}");
}

#[test]
fn the_sign_is_shown_at_a_known_caret_only() {
    assert_eq!(show(0, 0, None), None);
    assert_eq!(show(0, 0, Some((3, 4))), Some((3, 4)));
    assert_eq!(show(5, 0, None), Some((5, 0)));
    assert_eq!(calc_window_position(7, 8, 96, None), (7, 8));
    let mut indicator = Indicator::new();
    assert!(!hide_indicator(&mut indicator));
    indicator.shown();
    assert!(is_visible(&indicator));
    assert!(hide_indicator(&mut indicator));
    assert_eq!(indicator_label(ImeMode::On, false), None);
    assert_eq!(indicator_label(ImeMode::On, true), Some("あ"));
    assert_eq!(indicator_label(ImeMode::Off, false), Some("A"));
    assert_eq!(indicator_colors(true), (0xFFFFFF, 0x555555));
    let mut caret = CaretRect(rect(0, 0, 0, 0));
    caret_rect_set(&mut caret, rect(1, 2, 3, 4));
    assert_eq!(caret_rect_get(&caret), rect(1, 2, 3, 4));
}

#[test]
fn themes_fall_back_to_their_defaults() {
    let dword = |data| Some(RegistryValue { is_dword: true, size: 4, data });
    assert!(is_light(Surface::Taskbar, dword(1)));
    assert!(!is_light(Surface::App, dword(0)));
    assert!(is_light(Surface::App, None));
    let text = Some(RegistryValue { is_dword: false, size: 4, data: 1 });
    assert!(!is_light(Surface::Taskbar, text));
    assert!(is_light_mode(Some(1)) && !is_light_mode(None));
    let mut last = false;
    assert!(observe_theme(&mut last, true));
    assert!(!observe_theme(&mut last, true));
}

#[test]
fn published_modes_belong_to_their_process() {
    assert_eq!(encode(7, ImeMode::On), (7 << 32) | 0x100);
    assert_eq!(encode(7, ImeMode::Off), 7 << 32);
    assert_eq!(publish(7, 7, ImeMode::HalfKatakana), Some((7 << 32) | 0x100));
    assert_eq!(publish(8, 7, ImeMode::On), None);
    assert!(clear(encode(7, ImeMode::On), 7));
    assert!(!clear(encode(8, ImeMode::On), 7));
}

#[test]
fn the_menu_offers_only_enabled_modes() {
    let mut input = InputConfig::default();
    let ids = |input: &InputConfig| -> Vec<(u32, bool)> {
        langbar_menu(ImeMode::Off, input)
            .iter()
            .map(|i| match i {
                MenuItem::Entry { id, checked, .. } => (*id, *checked),
                MenuItem::Separator => (0, false),
            })
            .collect()
    };
    assert_eq!(ids(&input), [(1, false), (2, true), (0, false), (10, false), (11, false)]);
    input.full_alphanumeric_mode_enabled = true;
    assert_eq!(
        ids(&input),
        [(1, false), (2, true), (4, false), (0, false), (10, false), (11, false)]
    );
    assert_eq!(
        handle_langbar_menu_command(2),
        Some(MenuCommand::SwitchIme { mode: ImeMode::Off })
    );
    assert_eq!(handle_langbar_menu_command(11), Some(MenuCommand::RestartEngine));
    assert_eq!(handle_langbar_menu_command(10), Some(MenuCommand::OpenSettings));
    assert_eq!(handle_langbar_menu_command(99), None);
}

#[test]
fn the_button_shows_the_mode_and_the_engine() {
    assert_eq!(langbar_mode_char(ImeMode::On, false), "ー");
    assert_eq!(langbar_mode_char(ImeMode::On, true), "あ");
    assert_eq!(langbar_mode_char(ImeMode::Off, false), "A");
    assert_eq!(langbar_mode_char(ImeMode::FullAlphanumeric, false), "Ａ");
    assert_eq!(tooltip(Some("CUDA")), "rakukan [CUDA]");
    assert_eq!(tooltip(None), "rakukan [初期化中...]");
    let info = make_langbar_info("rakukan");
    assert_eq!(info.len(), 32);
    assert_eq!(wides_to_string(&info), "rakukan");
    assert_eq!(make_langbar_info(&"x".repeat(40))[31], 0);
    assert_eq!((open_close_value(true), open_close_value(false)), (1, 0));
    assert!(get_open_close(None) && get_open_close(Some(1)) && !get_open_close(Some(0)));
    assert_eq!((toggle_open_close(Some(0)), toggle_open_close(None)), (1, 0));
    let mut slot: Option<u8> = None;
    assert_eq!(advise_sink(&mut slot, false, Some(Some(1))), Err(SinkError::InvalidInterface));
    assert_eq!(advise_sink(&mut slot, true, None), Err(SinkError::NullSink));
    assert_eq!(advise_sink(&mut slot, true, Some(Some(1))), Ok(LANGBAR_SINK_COOKIE));
    assert_eq!(slot, Some(1));
    assert_eq!(unadvise_sink(&mut slot, 1), Err(SinkError::BadCookie));
    assert_eq!(unadvise_sink(&mut slot, LANGBAR_SINK_COOKIE), Ok(()));
    assert_eq!(slot, None);
}

#[test]
fn diagnostics_tell_what_is_known() {
    let log = "t1 beam conversion done reading_chars=3 elapsed_ms=67\n";
    assert_eq!(
        lines(EngineHealth::Answered { secs: 3 }, (true, false), Some(log)),
        [
            "エンジン：応答 OK（3 秒前）",
            "辞書（最終確認）：読み込み済み",
            "モデル（最終確認）：未準備",
            "直近のモデル生成：67 ms・3文字（速い目安）",
            "生成の記録時刻：t1"
        ]
    );
    let quiet = lines(EngineHealth::Answered { secs: 30 }, (false, true), None);
    assert_eq!(quiet[0], "エンジン：未確認（最終応答 30 秒前）");
    assert_eq!(quiet[3], "モデル生成速度：未計測／ログに記録なし");
    assert_eq!(quiet.len(), 4);
    assert_eq!(lines(EngineHealth::Busy, (true, true), None)[0], "エンジン：処理中（状態取得を省略）");
    assert_eq!(lines(EngineHealth::Failed, (true, true), None)[0], "エンジン：直近の通信／処理でエラー");
    assert_eq!(lines(EngineHealth::NotConnected, (true, true), None)[0], "エンジン：未接続／初期化中");
    assert_eq!(number("a=x a=+7 a=9", "a="), Some(7));
    assert_eq!(number("a=99999999999999999999", "a="), None);
}

#[test]
fn logs_are_cut_at_whole_lines() {
    assert_eq!(log_tail("one\ntwo\nthr", false), "one\ntwo\n");
    assert_eq!(log_tail("one\ntwo\nthr", true), "two\n");
    assert_eq!(log_tail("one", true), "");
    assert_eq!(log_tail("one", false), "");
    assert_eq!(log_tail_start(10), 0);
    assert_eq!(log_tail_start(65_536 + 5), 5);
}

#[test]
fn attributes_are_listed_and_looked_up() {
    let mut atoms = Atoms::new();
    set_atoms(&mut atoms, 3, 4);
    assert_eq!((atom_input(&atoms), atom_converted(&atoms)), (3, 4));
    assert_eq!(get_by_guid(GUID_DISPLAY_ATTRIBUTE_INPUT).unwrap().desc, "yurukan Input");
    assert!(get_by_guid(GUID_DISPLAY_ATTRIBUTE).unwrap().attr.line == LineStyle::Solid);
    assert!(get_by_guid(GUID_PROFILE).is_none());
    let mut walk = EnumDisplayAttrInfo::new(make_all());
    let (first, all) = walk.next(1);
    assert!(all && first[0].guid == GUID_DISPLAY_ATTRIBUTE_INPUT);
    let mut copy = walk.duplicate();
    let (rest, all) = walk.next(5);
    assert!(!all && rest.len() == 1 && rest[0].guid == GUID_DISPLAY_ATTRIBUTE);
    assert_eq!(copy.next(1).0[0].guid, GUID_DISPLAY_ATTRIBUTE);
    walk.reset();
    walk.skip(1);
    assert_eq!(walk.pos, 1);
    walk.skip(9);
    assert_eq!(walk.pos, 2);
    let mut module = DllModule::new();
    assert_eq!((module.add_ref(), module.add_ref(), module.release()), (0, 1, 2));
    assert_eq!(module.ref_count, 1);
}

#[test]
fn the_service_registers_and_takes_back() {
    let mut state: TextServiceState<&str, &str, (), &str> = TextServiceState {
        client_id: 0,
        thread_mgr: None,
        keymap: "old",
        langbar_sink: None,
        threadmgr_cookie: 0,
        threadfocus_cookie: 0,
        openclose_cookie: 0,
        openclose_comp: None,
    };
    assert_eq!(activate(&mut state, None, 5, "new", ImeMode::Off), Err(NullThreadMgr));
    assert_eq!(state.keymap, "old");
    assert_eq!(deactivate(&mut state), None);
    let steps = activate(&mut state, Some("mgr"), 5, "new", ImeMode::Off).unwrap();
    assert_eq!(steps[0], ActivateStep::CacheThreadMgr);
    assert_eq!(steps[3], ActivateStep::WriteOpen { open: false });
    assert_eq!(steps.len(), 12);
    assert_eq!((state.client_id, state.keymap), (5, "new"));
    registered(&mut state, Some(1), None, Some((3, "comp")));
    assert_eq!(
        deactivate(&mut state),
        Some(Unadvise { threadmgr: Some(1), threadfocus: None, openclose: Some(3) })
    );
    assert_eq!(state.openclose_cookie, 0);
    assert!(state.openclose_comp.is_none());
    assert_eq!(
        deactivate(&mut state),
        Some(Unadvise { threadmgr: Some(1), threadfocus: None, openclose: None })
    );
    assert!(maybe_reload_runtime_config(&mut state, true, Some("keys")));
    assert_eq!(state.keymap, "keys");
    assert_eq!(on_kill_thread_focus().len(), 3);

    let mut store = ModeStore::new();
    let cfg = InputConfig::default();
    assert_eq!(initial_mode(&mut store, &cfg, ImeMode::On, None, 1, false), None);
    assert_eq!(
        initial_mode(&mut store, &cfg, ImeMode::On, Some(4), 1, false),
        Some(ImeMode::Off)
    );
    let mut sess = SessionState::Preedit { text: "あ".into() };
    let mut slot: CompositionWrapper<u8> = CompositionWrapper::new();
    composition_set_with_dm(&mut slot, Some(1), 4);
    assert_eq!(deactivate_session(&mut sess, &mut slot).len(), 2);
    assert!(sess.is_idle() && slot.comp.is_none());
}

#[test]
fn the_settings_program_is_looked_for_in_two_places() {
    assert_eq!(launch_settings_app(true, true, "x"), Ok(SettingsPlace::OwnDirectory));
    assert_eq!(launch_settings_app(false, true, "x"), Ok(SettingsPlace::InstallDirectory));
    assert_eq!(
        launch_settings_app(false, false, "C:\\a.exe"),
        Err(launch_error_text("missing file: C:\\a.exe"))
    );
    assert_eq!(
        launch_error_text("x"),
        "設定アプリを起動できませんでした。\nx\n\nrakukan-settings.exe をインストール先に配置してください。"
    );
}
