//! User-visible strings of the tray menu, options panel and error boxes, in
//! every supported language.
//!
//! - Each language has one complete table; the struct literal forces every
//!   field to be present.
//! - The language preference is stored in `config.toml` as `auto` (follow the
//!   system) or one of the language codes; see [`normalize_language`].
//! - Language names are given once, in their own script, by
//!   [`Lang::display_name`]; the tables hold only what is translated.

use vstd::prelude::*;
use crate::text::{chars_of, same_chars};

verus! {

/// Supported interface languages.
#[derive(Debug, Clone, Copy, PartialEq, Eq, Structural)]
pub enum Lang {
    /// Simplified Chinese
    Zh,
    /// English
    En,
    /// Japanese
    Ja,
    /// Korean
    Ko,
    /// French
    Fr,
    /// German
    De,
    /// Spanish
    Es,
    /// Russian
    Ru,
}

/// The preference value meaning "follow the system language".
pub open spec fn auto_code() -> Seq<char> {
    seq!['a', 'u', 't', 'o']
}

/// Every language, in menu order.
pub open spec fn all_langs() -> Seq<Lang> {
    seq![Lang::Zh, Lang::En, Lang::Ja, Lang::Ko, Lang::Fr, Lang::De, Lang::Es, Lang::Ru]
}

/// Language named by a preference value, if it is a language code.
pub open spec fn parse_spec(t: Seq<char>) -> Option<Lang> {
    if t == Lang::Zh.code_spec() {
        Some(Lang::Zh)
    } else if t == Lang::En.code_spec() {
        Some(Lang::En)
    } else if t == Lang::Ja.code_spec() {
        Some(Lang::Ja)
    } else if t == Lang::Ko.code_spec() {
        Some(Lang::Ko)
    } else if t == Lang::Fr.code_spec() {
        Some(Lang::Fr)
    } else if t == Lang::De.code_spec() {
        Some(Lang::De)
    } else if t == Lang::Es.code_spec() {
        Some(Lang::Es)
    } else if t == Lang::Ru.code_spec() {
        Some(Lang::Ru)
    } else {
        None
    }
}

/// A preference value kept as it is when it is `auto` or a language code,
/// otherwise replaced by `auto`.
pub open spec fn normalize_spec(t: Seq<char>) -> Seq<char> {
    if t == auto_code() || parse_spec(t) is Some {
        t
    } else {
        auto_code()
    }
}

impl Lang {
    /// Code of the language in `config.toml`.
    pub open spec fn code_spec(self) -> Seq<char> {
        match self {
            Lang::Zh => seq!['z', 'h'],
            Lang::En => seq!['e', 'n'],
            Lang::Ja => seq!['j', 'a'],
            Lang::Ko => seq!['k', 'o'],
            Lang::Fr => seq!['f', 'r'],
            Lang::De => seq!['d', 'e'],
            Lang::Es => seq!['e', 's'],
            Lang::Ru => seq!['r', 'u'],
        }
    }

    /// Name of the language in its own script.
    pub open spec fn name_spec(self) -> Seq<char> {
        match self {
            Lang::Zh => seq!['简', '体', '中', '文'],
            Lang::En => seq!['E', 'n', 'g', 'l', 'i', 's', 'h'],
            Lang::Ja => seq!['日', '本', '語'],
            Lang::Ko => seq!['한', '국', '어'],
            Lang::Fr => seq!['F', 'r', 'a', 'n', 'ç', 'a', 'i', 's'],
            Lang::De => seq!['D', 'e', 'u', 't', 's', 'c', 'h'],
            Lang::Es => seq!['E', 's', 'p', 'a', 'ñ', 'o', 'l'],
            Lang::Ru => seq!['Р', 'у', 'с', 'с', 'к', 'и', 'й'],
        }
    }

    /// The string table of the language.
    pub open spec fn table(self) -> Strings {
        match self {
            Lang::Zh => Strings {
                menu_autostart: "开机启动",
                menu_options: "选项",
                menu_language: "语言",
                menu_exit: "退出",
                tray_tooltip: "CapIMESwitch - CapsLock 智能切换",
                panel_title: "CapIMESwitch 选项",
                label_autostart: "开机启动",
                label_delay: "长按延迟(毫秒)",
                label_exclude: "排除程序",
                label_language: "语言",
                help_autostart: "勾选后开机自动运行本程序,状态与托盘菜单一致,保存时生效",
                help_delay: "短按 CapsLock(未达该毫秒数松开)切换输入法;长按(达到该毫秒数)切换大小写",
                help_exclude: "这些程序中 CapsLock 恢复原始行为,不切换输入法;多个程序用逗号或换行分隔",
                version_template: "版本 {}",
                save: "保存",
                err_instance_lock: "创建实例锁失败",
                err_already_running: "CapIMESwitch 已在运行中,请从系统托盘操作。",
                err_register_class: "注册窗口类失败, GetLastError={}",
                err_register_options_class: "注册选项窗口类失败, GetLastError={}",
                err_create_tray_window: "创建托盘窗口失败",
                err_add_tray_icon: "添加托盘图标失败",
                err_install_hook: "安装键盘钩子失败, GetLastError={}",
                err_create_options_window: "创建选项窗口失败, GetLastError={}",
                err_toggle_autostart: "修改开机自启动设置失败",
                err_delay_range: "请输入 {} - {} 之间的毫秒数",
                err_config_path: "无法确定配置文件位置",
                err_save_failed: "保存设置失败",
                err_save_autostart: "保存开机自启动设置失败",
                label_run_as_admin: "以管理员身份启动",
                help_run_as_admin: "以管理员身份开机自启,让 CapsLock 在管理员窗口中也能切换输入法",
                msg_elevation_cancelled: "已取消提权,设置未生效",
                err_drop_elevation: "无法自动降权,请退出后以普通方式重新启动",
                err_elevated_autostart: "开机自动提权启动设置失败,本会话仍以管理员运行",
            },
            Lang::En => Strings {
                menu_autostart: "Autostart at login",
                menu_options: "Options",
                menu_language: "Language",
                menu_exit: "Exit",
                tray_tooltip: "CapIMESwitch - Smart CapsLock switching",
                panel_title: "CapIMESwitch Options",
                label_autostart: "Autostart at login",
                label_delay: "Long press delay (ms)",
                label_exclude: "Excluded programs",
                label_language: "Language",
                help_autostart: "Launch automatically at login; state matches the tray menu and takes effect on save",
                help_delay: "Short press CapsLock (release before this many ms) switches IME; long press (reach this many ms) toggles CapsLock",
                help_exclude: "CapsLock keeps its original behavior in these programs and does not switch IME; separate programs with commas or newlines",
                version_template: "Version {}",
                save: "Save",
                err_instance_lock: "Failed to create instance lock",
                err_already_running: "CapIMESwitch is already running. Please use the system tray.",
                err_register_class: "Failed to register window class, GetLastError={}",
                err_register_options_class: "Failed to register options window class, GetLastError={}",
                err_create_tray_window: "Failed to create tray window",
                err_add_tray_icon: "Failed to add tray icon",
                err_install_hook: "Failed to install keyboard hook, GetLastError={}",
                err_create_options_window: "Failed to create options window, GetLastError={}",
                err_toggle_autostart: "Failed to update autostart setting",
                err_delay_range: "Please enter a value between {} and {} ms",
                err_config_path: "Cannot determine config file location",
                err_save_failed: "Failed to save settings",
                err_save_autostart: "Failed to save autostart setting",
                label_run_as_admin: "Run as administrator",
                help_run_as_admin: "Auto-start at login as administrator, so CapsLock keeps working in elevated windows too",
                msg_elevation_cancelled: "Elevation was cancelled; the setting did not take effect",
                err_drop_elevation: "Could not drop administrator rights automatically; please exit and start the program normally",
                err_elevated_autostart: "Failed to set up elevated start at login; this session keeps running as administrator",
            },
            Lang::Ja => Strings {
                menu_autostart: "ログイン時に自動起動",
                menu_options: "オプション",
                menu_language: "言語",
                menu_exit: "終了",
                tray_tooltip: "CapIMESwitch - CapsLock スマート切り替え",
                panel_title: "CapIMESwitch オプション",
                label_autostart: "ログイン時に自動起動",
                label_delay: "長押し遅延(ミリ秒)",
                label_exclude: "除外プログラム",
                label_language: "言語",
                help_autostart: "ログイン時に自動起動します。状態はトレイ メニューと一致し、保存時に有効になります",
                help_delay: "短押しの CapsLock(このミリ秒未満で離す)で入力方式を切り替え、長押し(このミリ秒以上)で大文字/小文字を切り替えます",
                help_exclude: "これらのプログラムでは CapsLock が元の動作に戻り、入力方式を切り替えません。複数のプログラムはカンマまたは改行で区切ります",
                version_template: "バージョン {}",
                save: "保存",
                err_instance_lock: "インスタンス ロックの作成に失敗しました",
                err_already_running: "CapIMESwitch は既に実行中です。システム トレイから操作してください。",
                err_register_class: "ウィンドウ クラスの登録に失敗しました, GetLastError={}",
                err_register_options_class: "オプション ウィンドウ クラスの登録に失敗しました, GetLastError={}",
                err_create_tray_window: "トレイ ウィンドウの作成に失敗しました",
                err_add_tray_icon: "トレイ アイコンの追加に失敗しました",
                err_install_hook: "キーボード フックのインストールに失敗しました, GetLastError={}",
                err_create_options_window: "オプション ウィンドウの作成に失敗しました, GetLastError={}",
                err_toggle_autostart: "自動起動設定の変更に失敗しました",
                err_delay_range: "{} から {} の間のミリ秒数を入力してください",
                err_config_path: "設定ファイルの場所を特定できません",
                err_save_failed: "設定の保存に失敗しました",
                err_save_autostart: "自動起動設定の保存に失敗しました",
                label_run_as_admin: "管理者として実行",
                help_run_as_admin: "ログイン時に管理者として自動起動し、管理者ウィンドウでも CapsLock で入力方式を切り替えられるようにします",
                msg_elevation_cancelled: "昇格がキャンセルされました。設定は反映されていません",
                err_drop_elevation: "管理者権限を自動的に解除できませんでした。終了してから通常の方法で再起動してください",
                err_elevated_autostart: "管理者としての自動起動の設定に失敗しました。このセッションは管理者として実行を続けます",
            },
            Lang::Ko => Strings {
                menu_autostart: "로그인 시 자동 시작",
                menu_options: "옵션",
                menu_language: "언어",
                menu_exit: "종료",
                tray_tooltip: "CapIMESwitch - CapsLock 스마트 전환",
                panel_title: "CapIMESwitch 옵션",
                label_autostart: "로그인 시 자동 시작",
                label_delay: "길게 누름 지연(밀리초)",
                label_exclude: "제외 프로그램",
                label_language: "언어",
                help_autostart: "로그인 시 자동으로 실행됩니다. 상태는 트레이 메뉴와 일치하며 저장 시 적용됩니다",
                help_delay: "짧게 누른 CapsLock(이 밀리초 미만에 놓기)은 입력기를 전환하고, 길게 누르면(이 밀리초 이상) 대문자/소문자를 전환합니다",
                help_exclude: "이 프로그램들에서는 CapsLock이 원래 동작으로 돌아가 입력기를 전환하지 않습니다. 여러 프로그램은 쉼표 또는 줄바꿈으로 구분합니다",
                version_template: "버전 {}",
                save: "저장",
                err_instance_lock: "인스턴스 잠금 생성 실패",
                err_already_running: "CapIMESwitch가 이미 실행 중입니다. 시스템 트레이에서 조작해 주세요.",
                err_register_class: "창 클래스 등록 실패, GetLastError={}",
                err_register_options_class: "옵션 창 클래스 등록 실패, GetLastError={}",
                err_create_tray_window: "트레이 창 생성 실패",
                err_add_tray_icon: "트레이 아이콘 추가 실패",
                err_install_hook: "키보드 후크 설치 실패, GetLastError={}",
                err_create_options_window: "옵션 창 생성 실패, GetLastError={}",
                err_toggle_autostart: "자동 시작 설정 변경 실패",
                err_delay_range: "{} - {} 사이의 밀리초를 입력해 주세요",
                err_config_path: "구성 파일 위치를 확인할 수 없습니다",
                err_save_failed: "설정 저장 실패",
                err_save_autostart: "자동 시작 설정 저장 실패",
                label_run_as_admin: "관리자 권한으로 실행",
                help_run_as_admin: "로그인 시 관리자 권한으로 자동 시작하여 관리자 창에서도 CapsLock으로 입력기를 전환할 수 있게 합니다",
                msg_elevation_cancelled: "권한 상승이 취소되어 설정이 적용되지 않았습니다",
                err_drop_elevation: "관리자 권한을 자동으로 해제하지 못했습니다. 종료한 후 일반 방식으로 다시 시작하세요",
                err_elevated_autostart: "관리자 권한 자동 시작 설정에 실패했습니다. 이 세션은 관리자 권한으로 계속 실행됩니다",
            },
            Lang::Fr => Strings {
                menu_autostart: "Lancer au démarrage",
                menu_options: "Options",
                menu_language: "Langue",
                menu_exit: "Quitter",
                tray_tooltip: "CapIMESwitch - Permutation intelligente de CapsLock",
                panel_title: "Options de CapIMESwitch",
                label_autostart: "Lancer au démarrage",
                label_delay: "Délai d'appui long (ms)",
                label_exclude: "Programmes exclus",
                label_language: "Langue",
                help_autostart: "Lancement automatique à l'ouverture de session ; l'état correspond au menu de la barre d'état et s'applique lors de l'enregistrement",
                help_delay: "Un appui court sur CapsLock (relâché avant ce seuil en ms) permute la méthode de saisie ; un appui long (atteignant ce seuil) active/désactive les majuscules",
                help_exclude: "Dans ces programmes, CapsLock conserve son comportement d'origine et ne permute pas la méthode de saisie ; séparez les programmes par des virgules ou des sauts de ligne",
                version_template: "Version {}",
                save: "Enregistrer",
                err_instance_lock: "Échec de la création du verrou d'instance",
                err_already_running: "CapIMESwitch est déjà en cours d'exécution. Utilisez la barre d'état système.",
                err_register_class: "Échec de l'enregistrement de la classe de fenêtre, GetLastError={}",
                err_register_options_class: "Échec de l'enregistrement de la classe de fenêtre des options, GetLastError={}",
                err_create_tray_window: "Échec de la création de la fenêtre de barre d'état",
                err_add_tray_icon: "Échec de l'ajout de l'icône de barre d'état",
                err_install_hook: "Échec de l'installation du crochet de clavier, GetLastError={}",
                err_create_options_window: "Échec de la création de la fenêtre des options, GetLastError={}",
                err_toggle_autostart: "Échec de la mise à jour du réglage de démarrage automatique",
                err_delay_range: "Veuillez saisir un nombre de millisecondes entre {} et {}",
                err_config_path: "Impossible de déterminer l'emplacement du fichier de configuration",
                err_save_failed: "Échec de l'enregistrement des paramètres",
                err_save_autostart: "Échec de l'enregistrement du réglage de démarrage automatique",
                label_run_as_admin: "Exécuter en tant qu'administrateur",
                help_run_as_admin: "Démarrage automatique à la connexion en tant qu'administrateur, pour que CapsLock fonctionne aussi dans les fenêtres élevées",
                msg_elevation_cancelled: "Élévation annulée ; le réglage n'a pas été appliqué",
                err_drop_elevation: "Impossible de quitter automatiquement le mode administrateur ; quittez puis relancez le programme normalement",
                err_elevated_autostart: "Échec de la configuration du démarrage élevé à la connexion ; cette session continue en tant qu'administrateur",
            },
            Lang::De => Strings {
                menu_autostart: "Beim Anmelden starten",
                menu_options: "Optionen",
                menu_language: "Sprache",
                menu_exit: "Beenden",
                tray_tooltip: "CapIMESwitch - Intelligente CapsLock-Umschaltung",
                panel_title: "CapIMESwitch-Optionen",
                label_autostart: "Beim Anmelden starten",
                label_delay: "Drückverzögerung (ms)",
                label_exclude: "Ausgeschlossene Programme",
                label_language: "Sprache",
                help_autostart: "Automatisch bei der Anmeldung starten; der Status entspricht dem Tray-Menü und wird beim Speichern wirksam",
                help_delay: "Kurzer Druck auf CapsLock (vor dieser ms-Zahl loslassen) wechselt die Eingabemethode; langer Druck (diese ms-Zahl erreichen) schaltet Groß-/Kleinschreibung um",
                help_exclude: "In diesen Programmen behält CapsLock sein ursprüngliches Verhalten und wechselt die Eingabemethode nicht; Programme mit Kommas oder Zeilenumbrüchen trennen",
                version_template: "Version {}",
                save: "Speichern",
                err_instance_lock: "Instance-Sperre konnte nicht erstellt werden",
                err_already_running: "CapIMESwitch läuft bereits. Bitte verwenden Sie die Taskleiste.",
                err_register_class: "Fensterklasse konnte nicht registriert werden, GetLastError={}",
                err_register_options_class: "Options-Fensterklasse konnte nicht registriert werden, GetLastError={}",
                err_create_tray_window: "Tray-Fenster konnte nicht erstellt werden",
                err_add_tray_icon: "Tray-Symbol konnte nicht hinzugefügt werden",
                err_install_hook: "Tastatur-Hook konnte nicht installiert werden, GetLastError={}",
                err_create_options_window: "Optionsfenster konnte nicht erstellt werden, GetLastError={}",
                err_toggle_autostart: "Automatische Starteinstellung konnte nicht aktualisiert werden",
                err_delay_range: "Bitte geben Sie einen Wert zwischen {} und {} Millisekunden ein",
                err_config_path: "Speicherort der Konfigurationsdatei kann nicht ermittelt werden",
                err_save_failed: "Einstellungen konnten nicht gespeichert werden",
                err_save_autostart: "Automatische Starteinstellung konnte nicht gespeichert werden",
                label_run_as_admin: "Als Administrator ausführen",
                help_run_as_admin: "Bei der Anmeldung als Administrator automatisch starten, damit CapsLock auch in Fenstern mit erhöhten Rechten funktioniert",
                msg_elevation_cancelled: "Rechteerhöhung abgebrochen; die Einstellung wurde nicht übernommen",
                err_drop_elevation: "Administratorrechte konnten nicht automatisch abgegeben werden; bitte beenden und das Programm normal neu starten",
                err_elevated_autostart: "Einrichtung des Starts mit erhöhten Rechten bei der Anmeldung fehlgeschlagen; diese Sitzung läuft weiter als Administrator",
            },
            Lang::Es => Strings {
                menu_autostart: "Iniciar al iniciar sesión",
                menu_options: "Opciones",
                menu_language: "Idioma",
                menu_exit: "Salir",
                tray_tooltip: "CapIMESwitch - Cambio inteligente de CapsLock",
                panel_title: "Opciones de CapIMESwitch",
                label_autostart: "Iniciar al iniciar sesión",
                label_delay: "Retardo de pulsación larga (ms)",
                label_exclude: "Programas excluidos",
                label_language: "Idioma",
                help_autostart: "Se inicia automáticamente al iniciar sesión; el estado coincide con el menú de la bandeja y se aplica al guardar",
                help_delay: "La pulsación corta de CapsLock (soltar antes de este número de ms) cambia el método de entrada; la pulsación larga (alcanzar este número de ms) activa/desactiva las mayúsculas",
                help_exclude: "En estos programas, CapsLock conserva su comportamiento original y no cambia el método de entrada; separe varios programas con comas o saltos de línea",
                version_template: "Versión {}",
                save: "Guardar",
                err_instance_lock: "Error al crear el bloqueo de instancia",
                err_already_running: "CapIMESwitch ya está en ejecución. Use la bandeja del sistema.",
                err_register_class: "Error al registrar la clase de ventana, GetLastError={}",
                err_register_options_class: "Error al registrar la clase de ventana de opciones, GetLastError={}",
                err_create_tray_window: "Error al crear la ventana de bandeja",
                err_add_tray_icon: "Error al añadir el icono de bandeja",
                err_install_hook: "Error al instalar el gancho de teclado, GetLastError={}",
                err_create_options_window: "Error al crear la ventana de opciones, GetLastError={}",
                err_toggle_autostart: "Error al actualizar el ajuste de inicio automático",
                err_delay_range: "Introduzca un valor entre {} y {} milisegundos",
                err_config_path: "No se puede determinar la ubicación del archivo de configuración",
                err_save_failed: "Error al guardar los ajustes",
                err_save_autostart: "Error al guardar el ajuste de inicio automático",
                label_run_as_admin: "Ejecutar como administrador",
                help_run_as_admin: "Inicio automático al iniciar sesión como administrador, para que CapsLock funcione también en ventanas elevadas",
                msg_elevation_cancelled: "Se canceló la elevación; la configuración no se aplicó",
                err_drop_elevation: "No se pudieron quitar automáticamente los permisos de administrador; salga y vuelva a iniciar el programa normalmente",
                err_elevated_autostart: "No se pudo configurar el inicio elevado al iniciar sesión; esta sesión sigue ejecutándose como administrador",
            },
            Lang::Ru => Strings {
                menu_autostart: "Запускать при входе",
                menu_options: "Настройки",
                menu_language: "Язык",
                menu_exit: "Выход",
                tray_tooltip: "CapIMESwitch - Умное переключение CapsLock",
                panel_title: "Настройки CapIMESwitch",
                label_autostart: "Запускать при входе",
                label_delay: "Задержка длинного нажатия (мс)",
                label_exclude: "Исключённые программы",
                label_language: "Язык",
                help_autostart: "Автозапуск при входе в систему; состояние соответствует меню в трее и применяется при сохранении",
                help_delay: "Короткое нажатие CapsLock (отпустить раньше этого числа мс) переключает метод ввода; длинное (достичь этого числа мс) включает/выключает заглавные буквы",
                help_exclude: "В этих программах CapsLock сохраняет исходное поведение и не переключает метод ввода; разделяйте программы запятыми или переводами строк",
                version_template: "Версия {}",
                save: "Сохранить",
                err_instance_lock: "Не удалось создать блокировку экземпляра",
                err_already_running: "CapIMESwitch уже запущен. Используйте системный трей.",
                err_register_class: "Не удалось зарегистрировать класс окна, GetLastError={}",
                err_register_options_class: "Не удалось зарегистрировать класс окна настроек, GetLastError={}",
                err_create_tray_window: "Не удалось создать окно трея",
                err_add_tray_icon: "Не удалось добавить значок трея",
                err_install_hook: "Не удалось установить перехват клавиатуры, GetLastError={}",
                err_create_options_window: "Не удалось создать окно настроек, GetLastError={}",
                err_toggle_autostart: "Не удалось обновить настройку автозапуска",
                err_delay_range: "Введите значение в миллисекундах от {} до {}",
                err_config_path: "Не удалось определить расположение файла конфигурации",
                err_save_failed: "Не удалось сохранить настройки",
                err_save_autostart: "Не удалось сохранить настройку автозапуска",
                label_run_as_admin: "Запускать от имени администратора",
                help_run_as_admin: "Автозапуск при входе от имени администратора, чтобы CapsLock работал и в окнах с повышенными правами",
                msg_elevation_cancelled: "Повышение прав отменено; настройка не применена",
                err_drop_elevation: "Не удалось автоматически снять права администратора; закройте программу и запустите её обычным способом",
                err_elevated_autostart: "Не удалось настроить автозапуск с повышенными правами; этот сеанс продолжает работать от имени администратора",
            },
        }
    }

    /// Every language, in the order of the tray submenu and of the options
    /// panel list.
    pub fn all() -> (r: [Lang; 8])
        ensures
            r@ == all_langs(),
    {
        [Lang::Zh, Lang::En, Lang::Ja, Lang::Ko, Lang::Fr, Lang::De, Lang::Es, Lang::Ru]
    }

    /// Position of this language in `Lang::all()` (the order of the menu and
    /// of the selection list).
    pub fn index(self) -> (r: usize)
        ensures
            r < all_langs().len(),
            all_langs()[r as int] == self,
    {
        match self {
            Lang::Zh => 0,
            Lang::En => 1,
            Lang::Ja => 2,
            Lang::Ko => 3,
            Lang::Fr => 4,
            Lang::De => 5,
            Lang::Es => 6,
            Lang::Ru => 7,
        }
    }

    /// Parses a preference value: a language code gives its language; `auto`
    /// and anything else give `None` (the caller then follows the system).
    pub fn parse(s: &str) -> (r: Option<Lang>)
        ensures
            r == parse_spec(s@),
    {
        let v = chars_of(s);
        if same_chars(&v, &['z', 'h']) {
            Some(Lang::Zh)
        } else if same_chars(&v, &['e', 'n']) {
            Some(Lang::En)
        } else if same_chars(&v, &['j', 'a']) {
            Some(Lang::Ja)
        } else if same_chars(&v, &['k', 'o']) {
            Some(Lang::Ko)
        } else if same_chars(&v, &['f', 'r']) {
            Some(Lang::Fr)
        } else if same_chars(&v, &['d', 'e']) {
            Some(Lang::De)
        } else if same_chars(&v, &['e', 's']) {
            Some(Lang::Es)
        } else if same_chars(&v, &['r', 'u']) {
            Some(Lang::Ru)
        } else {
            None
        }
    }

    /// Code of the language as stored in `config.toml`.
    pub fn code(self) -> (r: &'static str)
        ensures
            r@ == self.code_spec(),
    {
        match self {
            Lang::Zh => {
                proof {
                    reveal_strlit("zh");
                }
                "zh"
            },
            Lang::En => {
                proof {
                    reveal_strlit("en");
                }
                "en"
            },
            Lang::Ja => {
                proof {
                    reveal_strlit("ja");
                }
                "ja"
            },
            Lang::Ko => {
                proof {
                    reveal_strlit("ko");
                }
                "ko"
            },
            Lang::Fr => {
                proof {
                    reveal_strlit("fr");
                }
                "fr"
            },
            Lang::De => {
                proof {
                    reveal_strlit("de");
                }
                "de"
            },
            Lang::Es => {
                proof {
                    reveal_strlit("es");
                }
                "es"
            },
            Lang::Ru => {
                proof {
                    reveal_strlit("ru");
                }
                "ru"
            },
        }
    }

    /// Name of the language in its own script (the same in every interface
    /// language).
    pub fn display_name(self) -> (r: &'static str)
        ensures
            r@ == self.name_spec(),
    {
        match self {
            Lang::Zh => {
                proof {
                    reveal_strlit("简体中文");
                }
                "简体中文"
            },
            Lang::En => {
                proof {
                    reveal_strlit("English");
                }
                "English"
            },
            Lang::Ja => {
                proof {
                    reveal_strlit("日本語");
                }
                "日本語"
            },
            Lang::Ko => {
                proof {
                    reveal_strlit("한국어");
                }
                "한국어"
            },
            Lang::Fr => {
                proof {
                    reveal_strlit("Français");
                }
                "Français"
            },
            Lang::De => {
                proof {
                    reveal_strlit("Deutsch");
                }
                "Deutsch"
            },
            Lang::Es => {
                proof {
                    reveal_strlit("Español");
                }
                "Español"
            },
            Lang::Ru => {
                proof {
                    reveal_strlit("Русский");
                }
                "Русский"
            },
        }
    }

    /// Every user-visible string of the language.
    pub fn strings(self) -> (r: &'static Strings)
        ensures
            *r == self.table(),
    {
        match self {
            Lang::Zh => &Strings {
                menu_autostart: "开机启动",
                menu_options: "选项",
                menu_language: "语言",
                menu_exit: "退出",
                tray_tooltip: "CapIMESwitch - CapsLock 智能切换",
                panel_title: "CapIMESwitch 选项",
                label_autostart: "开机启动",
                label_delay: "长按延迟(毫秒)",
                label_exclude: "排除程序",
                label_language: "语言",
                help_autostart: "勾选后开机自动运行本程序,状态与托盘菜单一致,保存时生效",
                help_delay: "短按 CapsLock(未达该毫秒数松开)切换输入法;长按(达到该毫秒数)切换大小写",
                help_exclude: "这些程序中 CapsLock 恢复原始行为,不切换输入法;多个程序用逗号或换行分隔",
                version_template: "版本 {}",
                save: "保存",
                err_instance_lock: "创建实例锁失败",
                err_already_running: "CapIMESwitch 已在运行中,请从系统托盘操作。",
                err_register_class: "注册窗口类失败, GetLastError={}",
                err_register_options_class: "注册选项窗口类失败, GetLastError={}",
                err_create_tray_window: "创建托盘窗口失败",
                err_add_tray_icon: "添加托盘图标失败",
                err_install_hook: "安装键盘钩子失败, GetLastError={}",
                err_create_options_window: "创建选项窗口失败, GetLastError={}",
                err_toggle_autostart: "修改开机自启动设置失败",
                err_delay_range: "请输入 {} - {} 之间的毫秒数",
                err_config_path: "无法确定配置文件位置",
                err_save_failed: "保存设置失败",
                err_save_autostart: "保存开机自启动设置失败",
                label_run_as_admin: "以管理员身份启动",
                help_run_as_admin: "以管理员身份开机自启,让 CapsLock 在管理员窗口中也能切换输入法",
                msg_elevation_cancelled: "已取消提权,设置未生效",
                err_drop_elevation: "无法自动降权,请退出后以普通方式重新启动",
                err_elevated_autostart: "开机自动提权启动设置失败,本会话仍以管理员运行",
            },
            Lang::En => &Strings {
                menu_autostart: "Autostart at login",
                menu_options: "Options",
                menu_language: "Language",
                menu_exit: "Exit",
                tray_tooltip: "CapIMESwitch - Smart CapsLock switching",
                panel_title: "CapIMESwitch Options",
                label_autostart: "Autostart at login",
                label_delay: "Long press delay (ms)",
                label_exclude: "Excluded programs",
                label_language: "Language",
                help_autostart: "Launch automatically at login; state matches the tray menu and takes effect on save",
                help_delay: "Short press CapsLock (release before this many ms) switches IME; long press (reach this many ms) toggles CapsLock",
                help_exclude: "CapsLock keeps its original behavior in these programs and does not switch IME; separate programs with commas or newlines",
                version_template: "Version {}",
                save: "Save",
                err_instance_lock: "Failed to create instance lock",
                err_already_running: "CapIMESwitch is already running. Please use the system tray.",
                err_register_class: "Failed to register window class, GetLastError={}",
                err_register_options_class: "Failed to register options window class, GetLastError={}",
                err_create_tray_window: "Failed to create tray window",
                err_add_tray_icon: "Failed to add tray icon",
                err_install_hook: "Failed to install keyboard hook, GetLastError={}",
                err_create_options_window: "Failed to create options window, GetLastError={}",
                err_toggle_autostart: "Failed to update autostart setting",
                err_delay_range: "Please enter a value between {} and {} ms",
                err_config_path: "Cannot determine config file location",
                err_save_failed: "Failed to save settings",
                err_save_autostart: "Failed to save autostart setting",
                label_run_as_admin: "Run as administrator",
                help_run_as_admin: "Auto-start at login as administrator, so CapsLock keeps working in elevated windows too",
                msg_elevation_cancelled: "Elevation was cancelled; the setting did not take effect",
                err_drop_elevation: "Could not drop administrator rights automatically; please exit and start the program normally",
                err_elevated_autostart: "Failed to set up elevated start at login; this session keeps running as administrator",
            },
            Lang::Ja => &Strings {
                menu_autostart: "ログイン時に自動起動",
                menu_options: "オプション",
                menu_language: "言語",
                menu_exit: "終了",
                tray_tooltip: "CapIMESwitch - CapsLock スマート切り替え",
                panel_title: "CapIMESwitch オプション",
                label_autostart: "ログイン時に自動起動",
                label_delay: "長押し遅延(ミリ秒)",
                label_exclude: "除外プログラム",
                label_language: "言語",
                help_autostart: "ログイン時に自動起動します。状態はトレイ メニューと一致し、保存時に有効になります",
                help_delay: "短押しの CapsLock(このミリ秒未満で離す)で入力方式を切り替え、長押し(このミリ秒以上)で大文字/小文字を切り替えます",
                help_exclude: "これらのプログラムでは CapsLock が元の動作に戻り、入力方式を切り替えません。複数のプログラムはカンマまたは改行で区切ります",
                version_template: "バージョン {}",
                save: "保存",
                err_instance_lock: "インスタンス ロックの作成に失敗しました",
                err_already_running: "CapIMESwitch は既に実行中です。システム トレイから操作してください。",
                err_register_class: "ウィンドウ クラスの登録に失敗しました, GetLastError={}",
                err_register_options_class: "オプション ウィンドウ クラスの登録に失敗しました, GetLastError={}",
                err_create_tray_window: "トレイ ウィンドウの作成に失敗しました",
                err_add_tray_icon: "トレイ アイコンの追加に失敗しました",
                err_install_hook: "キーボード フックのインストールに失敗しました, GetLastError={}",
                err_create_options_window: "オプション ウィンドウの作成に失敗しました, GetLastError={}",
                err_toggle_autostart: "自動起動設定の変更に失敗しました",
                err_delay_range: "{} から {} の間のミリ秒数を入力してください",
                err_config_path: "設定ファイルの場所を特定できません",
                err_save_failed: "設定の保存に失敗しました",
                err_save_autostart: "自動起動設定の保存に失敗しました",
                label_run_as_admin: "管理者として実行",
                help_run_as_admin: "ログイン時に管理者として自動起動し、管理者ウィンドウでも CapsLock で入力方式を切り替えられるようにします",
                msg_elevation_cancelled: "昇格がキャンセルされました。設定は反映されていません",
                err_drop_elevation: "管理者権限を自動的に解除できませんでした。終了してから通常の方法で再起動してください",
                err_elevated_autostart: "管理者としての自動起動の設定に失敗しました。このセッションは管理者として実行を続けます",
            },
            Lang::Ko => &Strings {
                menu_autostart: "로그인 시 자동 시작",
                menu_options: "옵션",
                menu_language: "언어",
                menu_exit: "종료",
                tray_tooltip: "CapIMESwitch - CapsLock 스마트 전환",
                panel_title: "CapIMESwitch 옵션",
                label_autostart: "로그인 시 자동 시작",
                label_delay: "길게 누름 지연(밀리초)",
                label_exclude: "제외 프로그램",
                label_language: "언어",
                help_autostart: "로그인 시 자동으로 실행됩니다. 상태는 트레이 메뉴와 일치하며 저장 시 적용됩니다",
                help_delay: "짧게 누른 CapsLock(이 밀리초 미만에 놓기)은 입력기를 전환하고, 길게 누르면(이 밀리초 이상) 대문자/소문자를 전환합니다",
                help_exclude: "이 프로그램들에서는 CapsLock이 원래 동작으로 돌아가 입력기를 전환하지 않습니다. 여러 프로그램은 쉼표 또는 줄바꿈으로 구분합니다",
                version_template: "버전 {}",
                save: "저장",
                err_instance_lock: "인스턴스 잠금 생성 실패",
                err_already_running: "CapIMESwitch가 이미 실행 중입니다. 시스템 트레이에서 조작해 주세요.",
                err_register_class: "창 클래스 등록 실패, GetLastError={}",
                err_register_options_class: "옵션 창 클래스 등록 실패, GetLastError={}",
                err_create_tray_window: "트레이 창 생성 실패",
                err_add_tray_icon: "트레이 아이콘 추가 실패",
                err_install_hook: "키보드 후크 설치 실패, GetLastError={}",
                err_create_options_window: "옵션 창 생성 실패, GetLastError={}",
                err_toggle_autostart: "자동 시작 설정 변경 실패",
                err_delay_range: "{} - {} 사이의 밀리초를 입력해 주세요",
                err_config_path: "구성 파일 위치를 확인할 수 없습니다",
                err_save_failed: "설정 저장 실패",
                err_save_autostart: "자동 시작 설정 저장 실패",
                label_run_as_admin: "관리자 권한으로 실행",
                help_run_as_admin: "로그인 시 관리자 권한으로 자동 시작하여 관리자 창에서도 CapsLock으로 입력기를 전환할 수 있게 합니다",
                msg_elevation_cancelled: "권한 상승이 취소되어 설정이 적용되지 않았습니다",
                err_drop_elevation: "관리자 권한을 자동으로 해제하지 못했습니다. 종료한 후 일반 방식으로 다시 시작하세요",
                err_elevated_autostart: "관리자 권한 자동 시작 설정에 실패했습니다. 이 세션은 관리자 권한으로 계속 실행됩니다",
            },
            Lang::Fr => &Strings {
                menu_autostart: "Lancer au démarrage",
                menu_options: "Options",
                menu_language: "Langue",
                menu_exit: "Quitter",
                tray_tooltip: "CapIMESwitch - Permutation intelligente de CapsLock",
                panel_title: "Options de CapIMESwitch",
                label_autostart: "Lancer au démarrage",
                label_delay: "Délai d'appui long (ms)",
                label_exclude: "Programmes exclus",
                label_language: "Langue",
                help_autostart: "Lancement automatique à l'ouverture de session ; l'état correspond au menu de la barre d'état et s'applique lors de l'enregistrement",
                help_delay: "Un appui court sur CapsLock (relâché avant ce seuil en ms) permute la méthode de saisie ; un appui long (atteignant ce seuil) active/désactive les majuscules",
                help_exclude: "Dans ces programmes, CapsLock conserve son comportement d'origine et ne permute pas la méthode de saisie ; séparez les programmes par des virgules ou des sauts de ligne",
                version_template: "Version {}",
                save: "Enregistrer",
                err_instance_lock: "Échec de la création du verrou d'instance",
                err_already_running: "CapIMESwitch est déjà en cours d'exécution. Utilisez la barre d'état système.",
                err_register_class: "Échec de l'enregistrement de la classe de fenêtre, GetLastError={}",
                err_register_options_class: "Échec de l'enregistrement de la classe de fenêtre des options, GetLastError={}",
                err_create_tray_window: "Échec de la création de la fenêtre de barre d'état",
                err_add_tray_icon: "Échec de l'ajout de l'icône de barre d'état",
                err_install_hook: "Échec de l'installation du crochet de clavier, GetLastError={}",
                err_create_options_window: "Échec de la création de la fenêtre des options, GetLastError={}",
                err_toggle_autostart: "Échec de la mise à jour du réglage de démarrage automatique",
                err_delay_range: "Veuillez saisir un nombre de millisecondes entre {} et {}",
                err_config_path: "Impossible de déterminer l'emplacement du fichier de configuration",
                err_save_failed: "Échec de l'enregistrement des paramètres",
                err_save_autostart: "Échec de l'enregistrement du réglage de démarrage automatique",
                label_run_as_admin: "Exécuter en tant qu'administrateur",
                help_run_as_admin: "Démarrage automatique à la connexion en tant qu'administrateur, pour que CapsLock fonctionne aussi dans les fenêtres élevées",
                msg_elevation_cancelled: "Élévation annulée ; le réglage n'a pas été appliqué",
                err_drop_elevation: "Impossible de quitter automatiquement le mode administrateur ; quittez puis relancez le programme normalement",
                err_elevated_autostart: "Échec de la configuration du démarrage élevé à la connexion ; cette session continue en tant qu'administrateur",
            },
            Lang::De => &Strings {
                menu_autostart: "Beim Anmelden starten",
                menu_options: "Optionen",
                menu_language: "Sprache",
                menu_exit: "Beenden",
                tray_tooltip: "CapIMESwitch - Intelligente CapsLock-Umschaltung",
                panel_title: "CapIMESwitch-Optionen",
                label_autostart: "Beim Anmelden starten",
                label_delay: "Drückverzögerung (ms)",
                label_exclude: "Ausgeschlossene Programme",
                label_language: "Sprache",
                help_autostart: "Automatisch bei der Anmeldung starten; der Status entspricht dem Tray-Menü und wird beim Speichern wirksam",
                help_delay: "Kurzer Druck auf CapsLock (vor dieser ms-Zahl loslassen) wechselt die Eingabemethode; langer Druck (diese ms-Zahl erreichen) schaltet Groß-/Kleinschreibung um",
                help_exclude: "In diesen Programmen behält CapsLock sein ursprüngliches Verhalten und wechselt die Eingabemethode nicht; Programme mit Kommas oder Zeilenumbrüchen trennen",
                version_template: "Version {}",
                save: "Speichern",
                err_instance_lock: "Instance-Sperre konnte nicht erstellt werden",
                err_already_running: "CapIMESwitch läuft bereits. Bitte verwenden Sie die Taskleiste.",
                err_register_class: "Fensterklasse konnte nicht registriert werden, GetLastError={}",
                err_register_options_class: "Options-Fensterklasse konnte nicht registriert werden, GetLastError={}",
                err_create_tray_window: "Tray-Fenster konnte nicht erstellt werden",
                err_add_tray_icon: "Tray-Symbol konnte nicht hinzugefügt werden",
                err_install_hook: "Tastatur-Hook konnte nicht installiert werden, GetLastError={}",
                err_create_options_window: "Optionsfenster konnte nicht erstellt werden, GetLastError={}",
                err_toggle_autostart: "Automatische Starteinstellung konnte nicht aktualisiert werden",
                err_delay_range: "Bitte geben Sie einen Wert zwischen {} und {} Millisekunden ein",
                err_config_path: "Speicherort der Konfigurationsdatei kann nicht ermittelt werden",
                err_save_failed: "Einstellungen konnten nicht gespeichert werden",
                err_save_autostart: "Automatische Starteinstellung konnte nicht gespeichert werden",
                label_run_as_admin: "Als Administrator ausführen",
                help_run_as_admin: "Bei der Anmeldung als Administrator automatisch starten, damit CapsLock auch in Fenstern mit erhöhten Rechten funktioniert",
                msg_elevation_cancelled: "Rechteerhöhung abgebrochen; die Einstellung wurde nicht übernommen",
                err_drop_elevation: "Administratorrechte konnten nicht automatisch abgegeben werden; bitte beenden und das Programm normal neu starten",
                err_elevated_autostart: "Einrichtung des Starts mit erhöhten Rechten bei der Anmeldung fehlgeschlagen; diese Sitzung läuft weiter als Administrator",
            },
            Lang::Es => &Strings {
                menu_autostart: "Iniciar al iniciar sesión",
                menu_options: "Opciones",
                menu_language: "Idioma",
                menu_exit: "Salir",
                tray_tooltip: "CapIMESwitch - Cambio inteligente de CapsLock",
                panel_title: "Opciones de CapIMESwitch",
                label_autostart: "Iniciar al iniciar sesión",
                label_delay: "Retardo de pulsación larga (ms)",
                label_exclude: "Programas excluidos",
                label_language: "Idioma",
                help_autostart: "Se inicia automáticamente al iniciar sesión; el estado coincide con el menú de la bandeja y se aplica al guardar",
                help_delay: "La pulsación corta de CapsLock (soltar antes de este número de ms) cambia el método de entrada; la pulsación larga (alcanzar este número de ms) activa/desactiva las mayúsculas",
                help_exclude: "En estos programas, CapsLock conserva su comportamiento original y no cambia el método de entrada; separe varios programas con comas o saltos de línea",
                version_template: "Versión {}",
                save: "Guardar",
                err_instance_lock: "Error al crear el bloqueo de instancia",
                err_already_running: "CapIMESwitch ya está en ejecución. Use la bandeja del sistema.",
                err_register_class: "Error al registrar la clase de ventana, GetLastError={}",
                err_register_options_class: "Error al registrar la clase de ventana de opciones, GetLastError={}",
                err_create_tray_window: "Error al crear la ventana de bandeja",
                err_add_tray_icon: "Error al añadir el icono de bandeja",
                err_install_hook: "Error al instalar el gancho de teclado, GetLastError={}",
                err_create_options_window: "Error al crear la ventana de opciones, GetLastError={}",
                err_toggle_autostart: "Error al actualizar el ajuste de inicio automático",
                err_delay_range: "Introduzca un valor entre {} y {} milisegundos",
                err_config_path: "No se puede determinar la ubicación del archivo de configuración",
                err_save_failed: "Error al guardar los ajustes",
                err_save_autostart: "Error al guardar el ajuste de inicio automático",
                label_run_as_admin: "Ejecutar como administrador",
                help_run_as_admin: "Inicio automático al iniciar sesión como administrador, para que CapsLock funcione también en ventanas elevadas",
                msg_elevation_cancelled: "Se canceló la elevación; la configuración no se aplicó",
                err_drop_elevation: "No se pudieron quitar automáticamente los permisos de administrador; salga y vuelva a iniciar el programa normalmente",
                err_elevated_autostart: "No se pudo configurar el inicio elevado al iniciar sesión; esta sesión sigue ejecutándose como administrador",
            },
            Lang::Ru => &Strings {
                menu_autostart: "Запускать при входе",
                menu_options: "Настройки",
                menu_language: "Язык",
                menu_exit: "Выход",
                tray_tooltip: "CapIMESwitch - Умное переключение CapsLock",
                panel_title: "Настройки CapIMESwitch",
                label_autostart: "Запускать при входе",
                label_delay: "Задержка длинного нажатия (мс)",
                label_exclude: "Исключённые программы",
                label_language: "Язык",
                help_autostart: "Автозапуск при входе в систему; состояние соответствует меню в трее и применяется при сохранении",
                help_delay: "Короткое нажатие CapsLock (отпустить раньше этого числа мс) переключает метод ввода; длинное (достичь этого числа мс) включает/выключает заглавные буквы",
                help_exclude: "В этих программах CapsLock сохраняет исходное поведение и не переключает метод ввода; разделяйте программы запятыми или переводами строк",
                version_template: "Версия {}",
                save: "Сохранить",
                err_instance_lock: "Не удалось создать блокировку экземпляра",
                err_already_running: "CapIMESwitch уже запущен. Используйте системный трей.",
                err_register_class: "Не удалось зарегистрировать класс окна, GetLastError={}",
                err_register_options_class: "Не удалось зарегистрировать класс окна настроек, GetLastError={}",
                err_create_tray_window: "Не удалось создать окно трея",
                err_add_tray_icon: "Не удалось добавить значок трея",
                err_install_hook: "Не удалось установить перехват клавиатуры, GetLastError={}",
                err_create_options_window: "Не удалось создать окно настроек, GetLastError={}",
                err_toggle_autostart: "Не удалось обновить настройку автозапуска",
                err_delay_range: "Введите значение в миллисекундах от {} до {}",
                err_config_path: "Не удалось определить расположение файла конфигурации",
                err_save_failed: "Не удалось сохранить настройки",
                err_save_autostart: "Не удалось сохранить настройку автозапуска",
                label_run_as_admin: "Запускать от имени администратора",
                help_run_as_admin: "Автозапуск при входе от имени администратора, чтобы CapsLock работал и в окнах с повышенными правами",
                msg_elevation_cancelled: "Повышение прав отменено; настройка не применена",
                err_drop_elevation: "Не удалось автоматически снять права администратора; закройте программу и запустите её обычным способом",
                err_elevated_autostart: "Не удалось настроить автозапуск с повышенными правами; этот сеанс продолжает работать от имени администратора",
            },
        }
    }
}

/// Normalises a preference value from `config.toml`: `auto` and the language
/// codes are kept, anything else becomes `auto`.
pub fn normalize_language(s: &str) -> (r: String)
    ensures
        r@ == normalize_spec(s@),
{
    broadcast use vstd::string::group_string_axioms;

    let v = chars_of(s);
    if same_chars(&v, &['a', 'u', 't', 'o']) || Lang::parse(s).is_some() {
        s.to_string()
    } else {
        proof {
            reveal_strlit("auto");
        }
        "auto".to_string()
    }
}

/// Reading back the code of a language gives the language.
pub proof fn lemma_code_parse_roundtrip(l: Lang)
    ensures
        parse_spec(l.code_spec()) == Some(l),
{
}

/// A value that parses to a language is exactly that language's code; in
/// particular `auto` parses to no language.
pub proof fn lemma_parse_only_codes(t: Seq<char>)
    ensures
        parse_spec(t) matches Some(l) ==> l.code_spec() == t,
        parse_spec(auto_code()) is None,
{
    assert(auto_code().len() == 4);
}

/// Distinct languages have distinct codes and distinct names.
pub proof fn lemma_codes_distinct(a: Lang, b: Lang)
    requires
        a != b,
    ensures
        a.code_spec() != b.code_spec(),
        a.name_spec() != b.name_spec(),
{
    lemma_code_parse_roundtrip(a);
    lemma_code_parse_roundtrip(b);
    if a.name_spec() == b.name_spec() {
        assert(a.name_spec()[0] == b.name_spec()[0]);
        assert(a.name_spec().len() == b.name_spec().len());
        assert(a.name_spec()[1] == b.name_spec()[1]);
    }
}

/// The language list names every language exactly once.
pub proof fn lemma_all_langs_complete(l: Lang)
    ensures
        all_langs().len() == 8,
        all_langs().contains(l),
        forall|i: int, j: int|
            0 <= i < j < all_langs().len() ==> all_langs()[i] != all_langs()[j],
{
    match l {
        Lang::Zh => assert(all_langs()[0] == l),
        Lang::En => assert(all_langs()[1] == l),
        Lang::Ja => assert(all_langs()[2] == l),
        Lang::Ko => assert(all_langs()[3] == l),
        Lang::Fr => assert(all_langs()[4] == l),
        Lang::De => assert(all_langs()[5] == l),
        Lang::Es => assert(all_langs()[6] == l),
        Lang::Ru => assert(all_langs()[7] == l),
    }
}

/// Normalising a preference value gives `auto` or a language code, keeps
/// both of those as they are, and is idempotent.
pub proof fn lemma_normalize_language(t: Seq<char>, l: Lang)
    ensures
        normalize_spec(t) == auto_code() || parse_spec(normalize_spec(t)) is Some,
        normalize_spec(auto_code()) == auto_code(),
        normalize_spec(l.code_spec()) == l.code_spec(),
        normalize_spec(normalize_spec(t)) == normalize_spec(t),
{
    lemma_code_parse_roundtrip(l);
}

/// Every language has a non-empty name.
pub proof fn lemma_names_nonempty(l: Lang)
    ensures
        l.name_spec().len() > 0,
        l.code_spec().len() == 2,
{
}

/// Primary language identifier of a Windows LCID: its low 10 bits.
pub open spec fn primary_language(lcid: u16) -> u16 {
    lcid % 1024
}

/// Interface language for a system LCID, by its primary language: Chinese
/// (0x04), English (0x09), Japanese (0x11), Korean (0x12), French (0x0C),
/// German (0x07), Spanish (0x0A) and Russian (0x19); any other primary
/// language falls back to Chinese.
pub open spec fn lang_from_lcid_spec(lcid: u16) -> Lang {
    let p = primary_language(lcid);
    if p == 0x09 {
        Lang::En
    } else if p == 0x11 {
        Lang::Ja
    } else if p == 0x12 {
        Lang::Ko
    } else if p == 0x0C {
        Lang::Fr
    } else if p == 0x07 {
        Lang::De
    } else if p == 0x0A {
        Lang::Es
    } else if p == 0x19 {
        Lang::Ru
    } else {
        Lang::Zh
    }
}

/// Language in effect for a preference value: the language it names, or the
/// system's when it is `auto` or unknown.
pub open spec fn resolve_spec(pref: Seq<char>, system_lcid: u16) -> Lang {
    match parse_spec(pref) {
        Some(l) => l,
        None => lang_from_lcid_spec(system_lcid),
    }
}

/// Maps a system interface LCID to a language by its primary language.
pub fn lang_from_lcid(lcid: u16) -> (r: Lang)
    ensures
        r == lang_from_lcid_spec(lcid),
{
    let primary = lcid & 0x3FF;
    assert(lcid & 0x3FF == lcid % 1024) by (bit_vector);
    if primary == 0x09 {
        Lang::En
    } else if primary == 0x11 {
        Lang::Ja
    } else if primary == 0x12 {
        Lang::Ko
    } else if primary == 0x0C {
        Lang::Fr
    } else if primary == 0x07 {
        Lang::De
    } else if primary == 0x0A {
        Lang::Es
    } else if primary == 0x19 {
        Lang::Ru
    } else {
        Lang::Zh
    }
}

/// The system language follows the documented table by the primary language
/// alone (the sublanguage bits above the low 10 never matter), every table
/// language is reached, and any other primary language gives Chinese.
pub proof fn lemma_lcid_table(lcid: u16, sub: u16)
    requires
        sub < 64,
    ensures
        lang_from_lcid_spec((sub * 1024 + lcid % 1024) as u16) == lang_from_lcid_spec(lcid),
        lang_from_lcid_spec(0x04) == Lang::Zh,
        lang_from_lcid_spec(0x09) == Lang::En,
        lang_from_lcid_spec(0x11) == Lang::Ja,
        lang_from_lcid_spec(0x12) == Lang::Ko,
        lang_from_lcid_spec(0x0C) == Lang::Fr,
        lang_from_lcid_spec(0x07) == Lang::De,
        lang_from_lcid_spec(0x0A) == Lang::Es,
        lang_from_lcid_spec(0x19) == Lang::Ru,
        !(lcid % 1024 == 0x09 || lcid % 1024 == 0x11 || lcid % 1024 == 0x12 || lcid % 1024 == 0x0C
            || lcid % 1024 == 0x07 || lcid % 1024 == 0x0A || lcid % 1024 == 0x19)
            ==> lang_from_lcid_spec(lcid) == Lang::Zh,
{
    let x = (sub * 1024 + lcid % 1024) as u16;
    assert(sub * 1024 + lcid % 1024 < 65536);
    assert(x % 1024 == lcid % 1024);
}

/// Language in effect for the preference `cfg_lang`, given the system
/// interface LCID (consulted only when the preference names no language).
pub fn resolve_language(cfg_lang: &str, system_lcid: u16) -> (r: Lang)
    ensures
        r == resolve_spec(cfg_lang@, system_lcid),
{
    match Lang::parse(cfg_lang) {
        Some(l) => l,
        None => lang_from_lcid(system_lcid),
    }
}

/// An explicit language preference wins over the system language, and `auto`
/// follows the system.
pub proof fn lemma_resolve_language(l: Lang, system_lcid: u16)
    ensures
        resolve_spec(l.code_spec(), system_lcid) == l,
        resolve_spec(auto_code(), system_lcid) == lang_from_lcid_spec(system_lcid),
{
    lemma_code_parse_roundtrip(l);
    lemma_parse_only_codes(auto_code());
}

/// Every string of the table is non-empty.
pub open spec fn all_nonempty(t: Strings) -> bool {
    &&& t.menu_autostart@.len() > 0
    &&& t.menu_options@.len() > 0
    &&& t.menu_language@.len() > 0
    &&& t.menu_exit@.len() > 0
    &&& t.tray_tooltip@.len() > 0
    &&& t.panel_title@.len() > 0
    &&& t.label_autostart@.len() > 0
    &&& t.label_delay@.len() > 0
    &&& t.label_exclude@.len() > 0
    &&& t.label_language@.len() > 0
    &&& t.help_autostart@.len() > 0
    &&& t.help_delay@.len() > 0
    &&& t.help_exclude@.len() > 0
    &&& t.version_template@.len() > 0
    &&& t.save@.len() > 0
    &&& t.err_instance_lock@.len() > 0
    &&& t.err_already_running@.len() > 0
    &&& t.err_register_class@.len() > 0
    &&& t.err_register_options_class@.len() > 0
    &&& t.err_create_tray_window@.len() > 0
    &&& t.err_add_tray_icon@.len() > 0
    &&& t.err_install_hook@.len() > 0
    &&& t.err_create_options_window@.len() > 0
    &&& t.err_toggle_autostart@.len() > 0
    &&& t.err_delay_range@.len() > 0
    &&& t.err_config_path@.len() > 0
    &&& t.err_save_failed@.len() > 0
    &&& t.err_save_autostart@.len() > 0
    &&& t.label_run_as_admin@.len() > 0
    &&& t.help_run_as_admin@.len() > 0
    &&& t.msg_elevation_cancelled@.len() > 0
    &&& t.err_drop_elevation@.len() > 0
    &&& t.err_elevated_autostart@.len() > 0
}

/// No string of any language table is empty.
pub proof fn lemma_tables_nonempty(l: Lang)
    ensures
        all_nonempty(l.table()),
{
    match l {
        Lang::Zh => {
            reveal_strlit("开机启动");
            reveal_strlit("选项");
            reveal_strlit("语言");
            reveal_strlit("退出");
            reveal_strlit("CapIMESwitch - CapsLock 智能切换");
            reveal_strlit("CapIMESwitch 选项");
            reveal_strlit("开机启动");
            reveal_strlit("长按延迟(毫秒)");
            reveal_strlit("排除程序");
            reveal_strlit("语言");
            reveal_strlit("勾选后开机自动运行本程序,状态与托盘菜单一致,保存时生效");
            reveal_strlit("短按 CapsLock(未达该毫秒数松开)切换输入法;长按(达到该毫秒数)切换大小写");
            reveal_strlit("这些程序中 CapsLock 恢复原始行为,不切换输入法;多个程序用逗号或换行分隔");
            reveal_strlit("版本 {}");
            reveal_strlit("保存");
            reveal_strlit("创建实例锁失败");
            reveal_strlit("CapIMESwitch 已在运行中,请从系统托盘操作。");
            reveal_strlit("注册窗口类失败, GetLastError={}");
            reveal_strlit("注册选项窗口类失败, GetLastError={}");
            reveal_strlit("创建托盘窗口失败");
            reveal_strlit("添加托盘图标失败");
            reveal_strlit("安装键盘钩子失败, GetLastError={}");
            reveal_strlit("创建选项窗口失败, GetLastError={}");
            reveal_strlit("修改开机自启动设置失败");
            reveal_strlit("请输入 {} - {} 之间的毫秒数");
            reveal_strlit("无法确定配置文件位置");
            reveal_strlit("保存设置失败");
            reveal_strlit("保存开机自启动设置失败");
            reveal_strlit("以管理员身份启动");
            reveal_strlit("以管理员身份开机自启,让 CapsLock 在管理员窗口中也能切换输入法");
            reveal_strlit("已取消提权,设置未生效");
            reveal_strlit("无法自动降权,请退出后以普通方式重新启动");
            reveal_strlit("开机自动提权启动设置失败,本会话仍以管理员运行");
        },
        Lang::En => {
            reveal_strlit("Autostart at login");
            reveal_strlit("Options");
            reveal_strlit("Language");
            reveal_strlit("Exit");
            reveal_strlit("CapIMESwitch - Smart CapsLock switching");
            reveal_strlit("CapIMESwitch Options");
            reveal_strlit("Autostart at login");
            reveal_strlit("Long press delay (ms)");
            reveal_strlit("Excluded programs");
            reveal_strlit("Language");
            reveal_strlit("Launch automatically at login; state matches the tray menu and takes effect on save");
            reveal_strlit("Short press CapsLock (release before this many ms) switches IME; long press (reach this many ms) toggles CapsLock");
            reveal_strlit("CapsLock keeps its original behavior in these programs and does not switch IME; separate programs with commas or newlines");
            reveal_strlit("Version {}");
            reveal_strlit("Save");
            reveal_strlit("Failed to create instance lock");
            reveal_strlit("CapIMESwitch is already running. Please use the system tray.");
            reveal_strlit("Failed to register window class, GetLastError={}");
            reveal_strlit("Failed to register options window class, GetLastError={}");
            reveal_strlit("Failed to create tray window");
            reveal_strlit("Failed to add tray icon");
            reveal_strlit("Failed to install keyboard hook, GetLastError={}");
            reveal_strlit("Failed to create options window, GetLastError={}");
            reveal_strlit("Failed to update autostart setting");
            reveal_strlit("Please enter a value between {} and {} ms");
            reveal_strlit("Cannot determine config file location");
            reveal_strlit("Failed to save settings");
            reveal_strlit("Failed to save autostart setting");
            reveal_strlit("Run as administrator");
            reveal_strlit("Auto-start at login as administrator, so CapsLock keeps working in elevated windows too");
            reveal_strlit("Elevation was cancelled; the setting did not take effect");
            reveal_strlit("Could not drop administrator rights automatically; please exit and start the program normally");
            reveal_strlit("Failed to set up elevated start at login; this session keeps running as administrator");
        },
        Lang::Ja => {
            reveal_strlit("ログイン時に自動起動");
            reveal_strlit("オプション");
            reveal_strlit("言語");
            reveal_strlit("終了");
            reveal_strlit("CapIMESwitch - CapsLock スマート切り替え");
            reveal_strlit("CapIMESwitch オプション");
            reveal_strlit("ログイン時に自動起動");
            reveal_strlit("長押し遅延(ミリ秒)");
            reveal_strlit("除外プログラム");
            reveal_strlit("言語");
            reveal_strlit("ログイン時に自動起動します。状態はトレイ メニューと一致し、保存時に有効になります");
            reveal_strlit("短押しの CapsLock(このミリ秒未満で離す)で入力方式を切り替え、長押し(このミリ秒以上)で大文字/小文字を切り替えます");
            reveal_strlit("これらのプログラムでは CapsLock が元の動作に戻り、入力方式を切り替えません。複数のプログラムはカンマまたは改行で区切ります");
            reveal_strlit("バージョン {}");
            reveal_strlit("保存");
            reveal_strlit("インスタンス ロックの作成に失敗しました");
            reveal_strlit("CapIMESwitch は既に実行中です。システム トレイから操作してください。");
            reveal_strlit("ウィンドウ クラスの登録に失敗しました, GetLastError={}");
            reveal_strlit("オプション ウィンドウ クラスの登録に失敗しました, GetLastError={}");
            reveal_strlit("トレイ ウィンドウの作成に失敗しました");
            reveal_strlit("トレイ アイコンの追加に失敗しました");
            reveal_strlit("キーボード フックのインストールに失敗しました, GetLastError={}");
            reveal_strlit("オプション ウィンドウの作成に失敗しました, GetLastError={}");
            reveal_strlit("自動起動設定の変更に失敗しました");
            reveal_strlit("{} から {} の間のミリ秒数を入力してください");
            reveal_strlit("設定ファイルの場所を特定できません");
            reveal_strlit("設定の保存に失敗しました");
            reveal_strlit("自動起動設定の保存に失敗しました");
            reveal_strlit("管理者として実行");
            reveal_strlit("ログイン時に管理者として自動起動し、管理者ウィンドウでも CapsLock で入力方式を切り替えられるようにします");
            reveal_strlit("昇格がキャンセルされました。設定は反映されていません");
            reveal_strlit("管理者権限を自動的に解除できませんでした。終了してから通常の方法で再起動してください");
            reveal_strlit("管理者としての自動起動の設定に失敗しました。このセッションは管理者として実行を続けます");
        },
        Lang::Ko => {
            reveal_strlit("로그인 시 자동 시작");
            reveal_strlit("옵션");
            reveal_strlit("언어");
            reveal_strlit("종료");
            reveal_strlit("CapIMESwitch - CapsLock 스마트 전환");
            reveal_strlit("CapIMESwitch 옵션");
            reveal_strlit("로그인 시 자동 시작");
            reveal_strlit("길게 누름 지연(밀리초)");
            reveal_strlit("제외 프로그램");
            reveal_strlit("언어");
            reveal_strlit("로그인 시 자동으로 실행됩니다. 상태는 트레이 메뉴와 일치하며 저장 시 적용됩니다");
            reveal_strlit("짧게 누른 CapsLock(이 밀리초 미만에 놓기)은 입력기를 전환하고, 길게 누르면(이 밀리초 이상) 대문자/소문자를 전환합니다");
            reveal_strlit("이 프로그램들에서는 CapsLock이 원래 동작으로 돌아가 입력기를 전환하지 않습니다. 여러 프로그램은 쉼표 또는 줄바꿈으로 구분합니다");
            reveal_strlit("버전 {}");
            reveal_strlit("저장");
            reveal_strlit("인스턴스 잠금 생성 실패");
            reveal_strlit("CapIMESwitch가 이미 실행 중입니다. 시스템 트레이에서 조작해 주세요.");
            reveal_strlit("창 클래스 등록 실패, GetLastError={}");
            reveal_strlit("옵션 창 클래스 등록 실패, GetLastError={}");
            reveal_strlit("트레이 창 생성 실패");
            reveal_strlit("트레이 아이콘 추가 실패");
            reveal_strlit("키보드 후크 설치 실패, GetLastError={}");
            reveal_strlit("옵션 창 생성 실패, GetLastError={}");
            reveal_strlit("자동 시작 설정 변경 실패");
            reveal_strlit("{} - {} 사이의 밀리초를 입력해 주세요");
            reveal_strlit("구성 파일 위치를 확인할 수 없습니다");
            reveal_strlit("설정 저장 실패");
            reveal_strlit("자동 시작 설정 저장 실패");
            reveal_strlit("관리자 권한으로 실행");
            reveal_strlit("로그인 시 관리자 권한으로 자동 시작하여 관리자 창에서도 CapsLock으로 입력기를 전환할 수 있게 합니다");
            reveal_strlit("권한 상승이 취소되어 설정이 적용되지 않았습니다");
            reveal_strlit("관리자 권한을 자동으로 해제하지 못했습니다. 종료한 후 일반 방식으로 다시 시작하세요");
            reveal_strlit("관리자 권한 자동 시작 설정에 실패했습니다. 이 세션은 관리자 권한으로 계속 실행됩니다");
        },
        Lang::Fr => {
            reveal_strlit("Lancer au démarrage");
            reveal_strlit("Options");
            reveal_strlit("Langue");
            reveal_strlit("Quitter");
            reveal_strlit("CapIMESwitch - Permutation intelligente de CapsLock");
            reveal_strlit("Options de CapIMESwitch");
            reveal_strlit("Lancer au démarrage");
            reveal_strlit("Délai d'appui long (ms)");
            reveal_strlit("Programmes exclus");
            reveal_strlit("Langue");
            reveal_strlit("Lancement automatique à l'ouverture de session ; l'état correspond au menu de la barre d'état et s'applique lors de l'enregistrement");
            reveal_strlit("Un appui court sur CapsLock (relâché avant ce seuil en ms) permute la méthode de saisie ; un appui long (atteignant ce seuil) active/désactive les majuscules");
            reveal_strlit("Dans ces programmes, CapsLock conserve son comportement d'origine et ne permute pas la méthode de saisie ; séparez les programmes par des virgules ou des sauts de ligne");
            reveal_strlit("Version {}");
            reveal_strlit("Enregistrer");
            reveal_strlit("Échec de la création du verrou d'instance");
            reveal_strlit("CapIMESwitch est déjà en cours d'exécution. Utilisez la barre d'état système.");
            reveal_strlit("Échec de l'enregistrement de la classe de fenêtre, GetLastError={}");
            reveal_strlit("Échec de l'enregistrement de la classe de fenêtre des options, GetLastError={}");
            reveal_strlit("Échec de la création de la fenêtre de barre d'état");
            reveal_strlit("Échec de l'ajout de l'icône de barre d'état");
            reveal_strlit("Échec de l'installation du crochet de clavier, GetLastError={}");
            reveal_strlit("Échec de la création de la fenêtre des options, GetLastError={}");
            reveal_strlit("Échec de la mise à jour du réglage de démarrage automatique");
            reveal_strlit("Veuillez saisir un nombre de millisecondes entre {} et {}");
            reveal_strlit("Impossible de déterminer l'emplacement du fichier de configuration");
            reveal_strlit("Échec de l'enregistrement des paramètres");
            reveal_strlit("Échec de l'enregistrement du réglage de démarrage automatique");
            reveal_strlit("Exécuter en tant qu'administrateur");
            reveal_strlit("Démarrage automatique à la connexion en tant qu'administrateur, pour que CapsLock fonctionne aussi dans les fenêtres élevées");
            reveal_strlit("Élévation annulée ; le réglage n'a pas été appliqué");
            reveal_strlit("Impossible de quitter automatiquement le mode administrateur ; quittez puis relancez le programme normalement");
            reveal_strlit("Échec de la configuration du démarrage élevé à la connexion ; cette session continue en tant qu'administrateur");
        },
        Lang::De => {
            reveal_strlit("Beim Anmelden starten");
            reveal_strlit("Optionen");
            reveal_strlit("Sprache");
            reveal_strlit("Beenden");
            reveal_strlit("CapIMESwitch - Intelligente CapsLock-Umschaltung");
            reveal_strlit("CapIMESwitch-Optionen");
            reveal_strlit("Beim Anmelden starten");
            reveal_strlit("Drückverzögerung (ms)");
            reveal_strlit("Ausgeschlossene Programme");
            reveal_strlit("Sprache");
            reveal_strlit("Automatisch bei der Anmeldung starten; der Status entspricht dem Tray-Menü und wird beim Speichern wirksam");
            reveal_strlit("Kurzer Druck auf CapsLock (vor dieser ms-Zahl loslassen) wechselt die Eingabemethode; langer Druck (diese ms-Zahl erreichen) schaltet Groß-/Kleinschreibung um");
            reveal_strlit("In diesen Programmen behält CapsLock sein ursprüngliches Verhalten und wechselt die Eingabemethode nicht; Programme mit Kommas oder Zeilenumbrüchen trennen");
            reveal_strlit("Version {}");
            reveal_strlit("Speichern");
            reveal_strlit("Instance-Sperre konnte nicht erstellt werden");
            reveal_strlit("CapIMESwitch läuft bereits. Bitte verwenden Sie die Taskleiste.");
            reveal_strlit("Fensterklasse konnte nicht registriert werden, GetLastError={}");
            reveal_strlit("Options-Fensterklasse konnte nicht registriert werden, GetLastError={}");
            reveal_strlit("Tray-Fenster konnte nicht erstellt werden");
            reveal_strlit("Tray-Symbol konnte nicht hinzugefügt werden");
            reveal_strlit("Tastatur-Hook konnte nicht installiert werden, GetLastError={}");
            reveal_strlit("Optionsfenster konnte nicht erstellt werden, GetLastError={}");
            reveal_strlit("Automatische Starteinstellung konnte nicht aktualisiert werden");
            reveal_strlit("Bitte geben Sie einen Wert zwischen {} und {} Millisekunden ein");
            reveal_strlit("Speicherort der Konfigurationsdatei kann nicht ermittelt werden");
            reveal_strlit("Einstellungen konnten nicht gespeichert werden");
            reveal_strlit("Automatische Starteinstellung konnte nicht gespeichert werden");
            reveal_strlit("Als Administrator ausführen");
            reveal_strlit("Bei der Anmeldung als Administrator automatisch starten, damit CapsLock auch in Fenstern mit erhöhten Rechten funktioniert");
            reveal_strlit("Rechteerhöhung abgebrochen; die Einstellung wurde nicht übernommen");
            reveal_strlit("Administratorrechte konnten nicht automatisch abgegeben werden; bitte beenden und das Programm normal neu starten");
            reveal_strlit("Einrichtung des Starts mit erhöhten Rechten bei der Anmeldung fehlgeschlagen; diese Sitzung läuft weiter als Administrator");
        },
        Lang::Es => {
            reveal_strlit("Iniciar al iniciar sesión");
            reveal_strlit("Opciones");
            reveal_strlit("Idioma");
            reveal_strlit("Salir");
            reveal_strlit("CapIMESwitch - Cambio inteligente de CapsLock");
            reveal_strlit("Opciones de CapIMESwitch");
            reveal_strlit("Iniciar al iniciar sesión");
            reveal_strlit("Retardo de pulsación larga (ms)");
            reveal_strlit("Programas excluidos");
            reveal_strlit("Idioma");
            reveal_strlit("Se inicia automáticamente al iniciar sesión; el estado coincide con el menú de la bandeja y se aplica al guardar");
            reveal_strlit("La pulsación corta de CapsLock (soltar antes de este número de ms) cambia el método de entrada; la pulsación larga (alcanzar este número de ms) activa/desactiva las mayúsculas");
            reveal_strlit("En estos programas, CapsLock conserva su comportamiento original y no cambia el método de entrada; separe varios programas con comas o saltos de línea");
            reveal_strlit("Versión {}");
            reveal_strlit("Guardar");
            reveal_strlit("Error al crear el bloqueo de instancia");
            reveal_strlit("CapIMESwitch ya está en ejecución. Use la bandeja del sistema.");
            reveal_strlit("Error al registrar la clase de ventana, GetLastError={}");
            reveal_strlit("Error al registrar la clase de ventana de opciones, GetLastError={}");
            reveal_strlit("Error al crear la ventana de bandeja");
            reveal_strlit("Error al añadir el icono de bandeja");
            reveal_strlit("Error al instalar el gancho de teclado, GetLastError={}");
            reveal_strlit("Error al crear la ventana de opciones, GetLastError={}");
            reveal_strlit("Error al actualizar el ajuste de inicio automático");
            reveal_strlit("Introduzca un valor entre {} y {} milisegundos");
            reveal_strlit("No se puede determinar la ubicación del archivo de configuración");
            reveal_strlit("Error al guardar los ajustes");
            reveal_strlit("Error al guardar el ajuste de inicio automático");
            reveal_strlit("Ejecutar como administrador");
            reveal_strlit("Inicio automático al iniciar sesión como administrador, para que CapsLock funcione también en ventanas elevadas");
            reveal_strlit("Se canceló la elevación; la configuración no se aplicó");
            reveal_strlit("No se pudieron quitar automáticamente los permisos de administrador; salga y vuelva a iniciar el programa normalmente");
            reveal_strlit("No se pudo configurar el inicio elevado al iniciar sesión; esta sesión sigue ejecutándose como administrador");
        },
        Lang::Ru => {
            reveal_strlit("Запускать при входе");
            reveal_strlit("Настройки");
            reveal_strlit("Язык");
            reveal_strlit("Выход");
            reveal_strlit("CapIMESwitch - Умное переключение CapsLock");
            reveal_strlit("Настройки CapIMESwitch");
            reveal_strlit("Запускать при входе");
            reveal_strlit("Задержка длинного нажатия (мс)");
            reveal_strlit("Исключённые программы");
            reveal_strlit("Язык");
            reveal_strlit("Автозапуск при входе в систему; состояние соответствует меню в трее и применяется при сохранении");
            reveal_strlit("Короткое нажатие CapsLock (отпустить раньше этого числа мс) переключает метод ввода; длинное (достичь этого числа мс) включает/выключает заглавные буквы");
            reveal_strlit("В этих программах CapsLock сохраняет исходное поведение и не переключает метод ввода; разделяйте программы запятыми или переводами строк");
            reveal_strlit("Версия {}");
            reveal_strlit("Сохранить");
            reveal_strlit("Не удалось создать блокировку экземпляра");
            reveal_strlit("CapIMESwitch уже запущен. Используйте системный трей.");
            reveal_strlit("Не удалось зарегистрировать класс окна, GetLastError={}");
            reveal_strlit("Не удалось зарегистрировать класс окна настроек, GetLastError={}");
            reveal_strlit("Не удалось создать окно трея");
            reveal_strlit("Не удалось добавить значок трея");
            reveal_strlit("Не удалось установить перехват клавиатуры, GetLastError={}");
            reveal_strlit("Не удалось создать окно настроек, GetLastError={}");
            reveal_strlit("Не удалось обновить настройку автозапуска");
            reveal_strlit("Введите значение в миллисекундах от {} до {}");
            reveal_strlit("Не удалось определить расположение файла конфигурации");
            reveal_strlit("Не удалось сохранить настройки");
            reveal_strlit("Не удалось сохранить настройку автозапуска");
            reveal_strlit("Запускать от имени администратора");
            reveal_strlit("Автозапуск при входе от имени администратора, чтобы CapsLock работал и в окнах с повышенными правами");
            reveal_strlit("Повышение прав отменено; настройка не применена");
            reveal_strlit("Не удалось автоматически снять права администратора; закройте программу и запустите её обычным способом");
            reveal_strlit("Не удалось настроить автозапуск с повышенными правами; этот сеанс продолжает работать от имени администратора");
        },
    }
}

/// Two texts are told apart by their lengths or by the character at one of
/// the positions where translations of a label first diverge.
spec fn texts_differ(x: Seq<char>, y: Seq<char>) -> bool {
    ||| x.len() != y.len()
    ||| (x.len() > 0 && y.len() > 0 && x[0] != y[0])
    ||| (x.len() > 13 && y.len() > 13 && x[13] != y[13])
}

/// Texts that are told apart are different.
proof fn lemma_texts_differ(x: Seq<char>, y: Seq<char>)
    requires
        texts_differ(x, y),
    ensures
        x != y,
{
}

proof fn lemma_menu_exit_differs(a: Lang, b: Lang)
    requires
        a != b,
    ensures
        a.table().menu_exit@ != b.table().menu_exit@,
{
    reveal_strlit("退出");
    reveal_strlit("Exit");
    reveal_strlit("終了");
    reveal_strlit("종료");
    reveal_strlit("Quitter");
    reveal_strlit("Beenden");
    reveal_strlit("Salir");
    reveal_strlit("Выход");
    lemma_texts_differ(a.table().menu_exit@, b.table().menu_exit@);
}

proof fn lemma_tray_tooltip_differs(a: Lang, b: Lang)
    requires
        a != b,
    ensures
        a.table().tray_tooltip@ != b.table().tray_tooltip@,
{
    reveal_strlit("CapIMESwitch - CapsLock 智能切换");
    reveal_strlit("CapIMESwitch - Smart CapsLock switching");
    reveal_strlit("CapIMESwitch - CapsLock スマート切り替え");
    reveal_strlit("CapIMESwitch - CapsLock 스마트 전환");
    reveal_strlit("CapIMESwitch - Permutation intelligente de CapsLock");
    reveal_strlit("CapIMESwitch - Intelligente CapsLock-Umschaltung");
    reveal_strlit("CapIMESwitch - Cambio inteligente de CapsLock");
    reveal_strlit("CapIMESwitch - Умное переключение CapsLock");
    lemma_texts_differ(a.table().tray_tooltip@, b.table().tray_tooltip@);
}

proof fn lemma_panel_title_differs(a: Lang, b: Lang)
    requires
        a != b,
    ensures
        a.table().panel_title@ != b.table().panel_title@,
{
    reveal_strlit("CapIMESwitch 选项");
    reveal_strlit("CapIMESwitch Options");
    reveal_strlit("CapIMESwitch オプション");
    reveal_strlit("CapIMESwitch 옵션");
    reveal_strlit("Options de CapIMESwitch");
    reveal_strlit("CapIMESwitch-Optionen");
    reveal_strlit("Opciones de CapIMESwitch");
    reveal_strlit("Настройки CapIMESwitch");
    lemma_texts_differ(a.table().panel_title@, b.table().panel_title@);
}

proof fn lemma_help_delay_differs(a: Lang, b: Lang)
    requires
        a != b,
    ensures
        a.table().help_delay@ != b.table().help_delay@,
{
    reveal_strlit("短按 CapsLock(未达该毫秒数松开)切换输入法;长按(达到该毫秒数)切换大小写");
    reveal_strlit("Short press CapsLock (release before this many ms) switches IME; long press (reach this many ms) toggles CapsLock");
    reveal_strlit("短押しの CapsLock(このミリ秒未満で離す)で入力方式を切り替え、長押し(このミリ秒以上)で大文字/小文字を切り替えます");
    reveal_strlit("짧게 누른 CapsLock(이 밀리초 미만에 놓기)은 입력기를 전환하고, 길게 누르면(이 밀리초 이상) 대문자/소문자를 전환합니다");
    reveal_strlit("Un appui court sur CapsLock (relâché avant ce seuil en ms) permute la méthode de saisie ; un appui long (atteignant ce seuil) active/désactive les majuscules");
    reveal_strlit("Kurzer Druck auf CapsLock (vor dieser ms-Zahl loslassen) wechselt die Eingabemethode; langer Druck (diese ms-Zahl erreichen) schaltet Groß-/Kleinschreibung um");
    reveal_strlit("La pulsación corta de CapsLock (soltar antes de este número de ms) cambia el método de entrada; la pulsación larga (alcanzar este número de ms) activa/desactiva las mayúsculas");
    reveal_strlit("Короткое нажатие CapsLock (отпустить раньше этого числа мс) переключает метод ввода; длинное (достичь этого числа мс) включает/выключает заглавные буквы");
    lemma_texts_differ(a.table().help_delay@, b.table().help_delay@);
}

/// `s` occurs in `t` at position `k`.
pub open spec fn occurs_at(s: Seq<char>, t: Seq<char>, k: int) -> bool {
    0 <= k && k + s.len() <= t.len() && t.subrange(k, k + s.len()) == s
}

/// Within each language the texts name their own items: the tray's
/// start-at-login and language items carry the same words as the panel's
/// labels for those settings, the options item's words appear in the options
/// panel's title, and the four tray items are told apart.
pub proof fn lemma_tables_name_their_items(l: Lang)
    ensures
        l.table().menu_autostart@ == l.table().label_autostart@,
        l.table().menu_language@ == l.table().label_language@,
        exists|k: int| occurs_at(l.table().menu_options@, l.table().panel_title@, k),
        l.table().menu_autostart@ != l.table().menu_options@,
        l.table().menu_autostart@ != l.table().menu_language@,
        l.table().menu_autostart@ != l.table().menu_exit@,
        l.table().menu_options@ != l.table().menu_language@,
        l.table().menu_options@ != l.table().menu_exit@,
        l.table().menu_language@ != l.table().menu_exit@,
{
    match l {
        Lang::Zh => {
            reveal_strlit("开机启动");
            reveal_strlit("选项");
            reveal_strlit("语言");
            reveal_strlit("退出");
            reveal_strlit("CapIMESwitch 选项");
            assert(l.table().panel_title@.subrange(13, 15) =~= l.table().menu_options@);
            assert(occurs_at(l.table().menu_options@, l.table().panel_title@, 13));
        },
        Lang::En => {
            reveal_strlit("Autostart at login");
            reveal_strlit("Options");
            reveal_strlit("Language");
            reveal_strlit("Exit");
            reveal_strlit("CapIMESwitch Options");
            assert(l.table().panel_title@.subrange(13, 20) =~= l.table().menu_options@);
            assert(occurs_at(l.table().menu_options@, l.table().panel_title@, 13));
        },
        Lang::Ja => {
            reveal_strlit("ログイン時に自動起動");
            reveal_strlit("オプション");
            reveal_strlit("言語");
            reveal_strlit("終了");
            reveal_strlit("CapIMESwitch オプション");
            assert(l.table().panel_title@.subrange(13, 18) =~= l.table().menu_options@);
            assert(occurs_at(l.table().menu_options@, l.table().panel_title@, 13));
        },
        Lang::Ko => {
            reveal_strlit("로그인 시 자동 시작");
            reveal_strlit("옵션");
            reveal_strlit("언어");
            reveal_strlit("종료");
            reveal_strlit("CapIMESwitch 옵션");
            assert(l.table().panel_title@.subrange(13, 15) =~= l.table().menu_options@);
            assert(occurs_at(l.table().menu_options@, l.table().panel_title@, 13));
        },
        Lang::Fr => {
            reveal_strlit("Lancer au démarrage");
            reveal_strlit("Options");
            reveal_strlit("Langue");
            reveal_strlit("Quitter");
            reveal_strlit("Options de CapIMESwitch");
            assert(l.table().panel_title@.subrange(0, 7) =~= l.table().menu_options@);
            assert(occurs_at(l.table().menu_options@, l.table().panel_title@, 0));
        },
        Lang::De => {
            reveal_strlit("Beim Anmelden starten");
            reveal_strlit("Optionen");
            reveal_strlit("Sprache");
            reveal_strlit("Beenden");
            reveal_strlit("CapIMESwitch-Optionen");
            assert(l.table().panel_title@.subrange(13, 21) =~= l.table().menu_options@);
            assert(occurs_at(l.table().menu_options@, l.table().panel_title@, 13));
        },
        Lang::Es => {
            reveal_strlit("Iniciar al iniciar sesión");
            reveal_strlit("Opciones");
            reveal_strlit("Idioma");
            reveal_strlit("Salir");
            reveal_strlit("Opciones de CapIMESwitch");
            assert(l.table().panel_title@.subrange(0, 8) =~= l.table().menu_options@);
            assert(occurs_at(l.table().menu_options@, l.table().panel_title@, 0));
        },
        Lang::Ru => {
            reveal_strlit("Запускать при входе");
            reveal_strlit("Настройки");
            reveal_strlit("Язык");
            reveal_strlit("Выход");
            reveal_strlit("Настройки CapIMESwitch");
            assert(l.table().panel_title@.subrange(0, 9) =~= l.table().menu_options@);
            assert(occurs_at(l.table().menu_options@, l.table().panel_title@, 0));
        },
    }
    lemma_texts_differ(l.table().menu_autostart@, l.table().menu_options@);
    lemma_texts_differ(l.table().menu_autostart@, l.table().menu_language@);
    lemma_texts_differ(l.table().menu_autostart@, l.table().menu_exit@);
    lemma_texts_differ(l.table().menu_options@, l.table().menu_language@);
    lemma_texts_differ(l.table().menu_options@, l.table().menu_exit@);
    lemma_texts_differ(l.table().menu_language@, l.table().menu_exit@);
}

/// The tray menu and panel texts of the two languages the program was written
/// in, as its own documentation gives them.
pub proof fn lemma_source_language_texts()
    ensures
        Lang::En.table().menu_autostart@ == "Autostart at login"@,
        Lang::En.table().menu_options@ == "Options"@,
        Lang::En.table().menu_language@ == "Language"@,
        Lang::En.table().menu_exit@ == "Exit"@,
        Lang::En.table().label_delay@ == "Long press delay (ms)"@,
        Lang::En.table().label_exclude@ == "Excluded programs"@,
        Lang::En.table().label_run_as_admin@ == "Run as administrator"@,
        Lang::Zh.table().menu_autostart@ == "开机启动"@,
        Lang::Zh.table().menu_options@ == "选项"@,
        Lang::Zh.table().menu_language@ == "语言"@,
        Lang::Zh.table().menu_exit@ == "退出"@,
        Lang::Zh.table().label_delay@ == "长按延迟(毫秒)"@,
        Lang::Zh.table().label_exclude@ == "排除程序"@,
        Lang::Zh.table().label_run_as_admin@ == "以管理员身份启动"@,
{
}

/// The exit item, the tooltip, the panel title and the delay help are
/// translated: any two languages show different texts for each of them.
pub proof fn lemma_tables_differ(a: Lang, b: Lang)
    requires
        a != b,
    ensures
        a.table().menu_exit@ != b.table().menu_exit@,
        a.table().tray_tooltip@ != b.table().tray_tooltip@,
        a.table().panel_title@ != b.table().panel_title@,
        a.table().help_delay@ != b.table().help_delay@,
{
    lemma_menu_exit_differs(a, b);
    lemma_tray_tooltip_differs(a, b);
    lemma_panel_title_differs(a, b);
    lemma_help_delay_differs(a, b);
}

/// Every user-visible string of one language. Fields holding `{}` are
/// templates for [`crate::template::tpl`].
#[derive(Debug, Clone, Copy, PartialEq, Eq)]
pub struct Strings {
    /// Tray menu: start at login.
    pub menu_autostart: &'static str,
    /// Tray menu: open the options panel.
    pub menu_options: &'static str,
    /// Tray menu: language submenu.
    pub menu_language: &'static str,
    /// Tray menu: exit.
    pub menu_exit: &'static str,
    /// Tooltip of the tray icon.
    pub tray_tooltip: &'static str,
    /// Title of the options panel.
    pub panel_title: &'static str,
    /// Options panel label: start at login.
    pub label_autostart: &'static str,
    /// Options panel label: long-press delay.
    pub label_delay: &'static str,
    /// Options panel label: excluded programs.
    pub label_exclude: &'static str,
    /// Options panel label: language.
    pub label_language: &'static str,
    /// Help text for the start-at-login row.
    pub help_autostart: &'static str,
    /// Help text for the long-press delay row.
    pub help_delay: &'static str,
    /// Help text for the excluded programs row.
    pub help_exclude: &'static str,
    /// Version line; `{}` takes the version number.
    pub version_template: &'static str,
    /// Save button.
    pub save: &'static str,
    /// Error: the single-instance lock could not be created.
    pub err_instance_lock: &'static str,
    /// Error: another instance is already running.
    pub err_already_running: &'static str,
    /// Error: registering the window class failed; `{}` takes the error code.
    pub err_register_class: &'static str,
    /// Error: registering the options window class failed; `{}` takes the error code.
    pub err_register_options_class: &'static str,
    /// Error: the tray window could not be created.
    pub err_create_tray_window: &'static str,
    /// Error: the tray icon could not be added.
    pub err_add_tray_icon: &'static str,
    /// Error: installing the keyboard hook failed; `{}` takes the error code.
    pub err_install_hook: &'static str,
    /// Error: the options window could not be created; `{}` takes the error code.
    pub err_create_options_window: &'static str,
    /// Error: the start-at-login setting could not be changed.
    pub err_toggle_autostart: &'static str,
    /// Error: delay out of range; the two `{}` take the minimum and the maximum.
    pub err_delay_range: &'static str,
    /// Error: the configuration file location is unknown.
    pub err_config_path: &'static str,
    /// Error: saving the settings failed.
    pub err_save_failed: &'static str,
    /// Error: saving the start-at-login setting failed.
    pub err_save_autostart: &'static str,
    /// Options panel: label of the run-as-administrator box.
    pub label_run_as_admin: &'static str,
    /// Options panel: help for the run-as-administrator box.
    pub help_run_as_admin: &'static str,
    /// Notice: the elevation prompt was declined, nothing changed.
    pub msg_elevation_cancelled: &'static str,
    /// Error: the restart without administrator rights failed.
    pub err_drop_elevation: &'static str,
    /// Error: the elevated start-at-login task could not be set up.
    pub err_elevated_autostart: &'static str,
}

} // verus!
