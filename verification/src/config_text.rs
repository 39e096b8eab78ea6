//! The settings file that a fresh installation starts with.
use vstd::prelude::*;

verus! {

pub const DEFAULT_CONFIG_TEXT: &'static str = r#"# rakukan 設定ファイル
# 入力モード変更時に再読込されます。

[general]
# ログレベル: error / warn / info / debug / trace
# debug: 開発中の標準。キー入力ごとの状態変化が見える
# info:  通常運用。初期化・確定・モード変更のみ
# trace: 詳細調査時。ループ内・トークン単位まで出力される（低速）
# 環境変数 RAKUKAN_LOG が設定されている場合はそちらが優先される
log_level = "info"

# GPU バックエンド: "auto" / "cuda" / "vulkan" / "cpu"
# "auto"   : インストール済みの DLL から cuda → vulkan → cpu の順で自動選択（デフォルト）
# "cuda"   : NVIDIA GPU (CUDA) ← RTX シリーズ推奨
# "vulkan" : Vulkan 対応 GPU (AMD / Intel / NVIDIA)
# "cpu"    : CPU のみ（GPU なし、VMware 等）
gpu_backend = "auto"

# GPU に載せるレイヤー数
# 0 で CPU のみ、未指定で全レイヤーを GPU にオフロード
# GPU 競合や他アプリの異常終了がある場合は 8 / 16 / 24 など小さめを試す
n_gpu_layers = 16

# 使用する GPU インデックス（複数 GPU 環境で 2 枚目以降を使う場合に変更）
main_gpu = 0

# LLM モデル ID
# jinen-v1-xsmall-q5  : 軽量・推奨（約 30 MB、低スペック PC 向け、デフォルト）
# jinen-v1-small-q5   : 標準（約 84 MB、通常用途）
# jinen-v1-xsmall-f16 : 高精度・大容量（約 138 MB、量子化なし FP16）
# jinen-v1-small-f16  : 高精度・大容量（約 423 MB、量子化なし FP16）
# jinen-v2-xsmall-q5  : v2 世代 (Qwen3) 軽量（約 28 MB）
# jinen-v2-small-q5   : v2 世代 (Qwen3) 標準（約 81 MB）
# jinen-v2-xsmall-f16 : v2 世代 (Qwen3) FP16（約 72 MB）
# jinen-v2-small-f16  : v2 世代 (Qwen3) FP16（約 220 MB）
model_variant = "jinen-v1-xsmall-q5"

[keyboard]
layout = "jis"
reload_on_mode_switch = true

[input]
# 起動時の IME 状態: "off" = 直接入力, "on" = かな漢字変換
default_mode = "off"
# 前回の IME オン/オフをアプリ（ウィンドウ）ごとに記憶する
remember_last_kana_mode = true
# 数字の入力幅: "halfwidth" = 半角 (012), "fullwidth" = 全角 (０１２)
digit_width = "halfwidth"
# 英字の入力幅: "fullwidth" = 全角 (ＡＢＣ), "halfwidth" = 半角 (ABC)
alpha_width = "fullwidth"
# 記号の入力幅: "fullwidth" = 全角 (＠＃＆), "halfwidth" = 半角 (@#&)
symbol_width = "fullwidth"
# 数字直後の 、/。 を ,/. として入力する
digit_separator_auto = true
# 数字だけの reading に対して提示する候補種別と順序
digit_candidates_order = ["arabic", "fullwidth", "positional", "per_digit", "daiji"]
# 確定時に学習するか (デフォルト: true)。
# false にすると学習を完全に抑止する。
auto_learn = true

[live_conversion]
enabled = true
debounce_ms = 80
use_llm = false
prefer_dictionary_first = true
# ライブ変換の候補数（beam 幅）: 1 = greedy（高速、デフォルト）, 3 = beam search（高品質）
beam_size = 1
# ライブ変換を開始する最小文字数（デフォルト 3）。
# 2 にすると 2 文字から変換を開始する（より積極的、変換負荷増）。
# 1 は 2 以上を推奨するが設定可能。
min_chars = 3

[conversion]
# Space 変換のビーム幅上限（num_candidates と min をとる）。
# デフォルト 6 では候補数 6 と揃え、候補表の幅を保つ。
# 体感速度を優先する場合は小さく、候補幅を優先する場合は大きく設定する。
# 範囲: 1〜30。
beam_size = 6

# Space 変換で表示する候補数（1〜30、デフォルト 6）。
# 新形式は [conversion].num_candidates。旧形式のルート直下 num_candidates も引き続き読める。
# num_candidates = 6

[appearance]
# 候補ウィンドウのフォントサイズ（96 DPI 基準の論理ピクセル）。既定 17。Windows の拡大率に追従
# 行の高さ・余白・最小幅も同じ比率で拡大するので、この値だけ変えればよい。
# 10〜72 にクランプされる。次回の候補表示から反映。
candidate_font_height = 17

[diagnostics]
dump_active_config = false
warn_on_unknown_key = true

# 旧形式との互換用:
# num_candidates = 6
"#;

}
