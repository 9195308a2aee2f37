use utermux::clock::TimeOfDay;
use utermux::config::{
    chosen_trigger, read_trigger_setting, read_trigger_text, read_trigger_time, AppConfig,
    BodyConfig, ConfigFile, HeaderConfig,
};
use utermux::error::ErrorKind;
use utermux::plan::ClaimTarget;
use utermux::proxy::ProxyConfig;

#[test]
fn ini_defaults() {
    assert_eq!(AppConfig::from_ini(""), AppConfig { thread: 10, thread_num: 2, send_num: 1 });
    assert_eq!(
        AppConfig::from_ini("# nothing\n\n[section]\n"),
        AppConfig { thread: 10, thread_num: 2, send_num: 1 }
    );
}

#[test]
fn ini_values_are_read() {
    let text = "thread=4\nthread_num = 8 \n  send_num= 3\ntime=12:00:00\n";
    assert_eq!(AppConfig::from_ini(text), AppConfig { thread: 4, thread_num: 8, send_num: 3 });
}

#[test]
fn ini_comments_and_bad_numbers() {
    let text = "#thread=4\nthread=abc\nthread_num=-1\nsend_num=+7\r\n";
    assert_eq!(AppConfig::from_ini(text), AppConfig { thread: 10, thread_num: 2, send_num: 7 });
}

#[test]
fn ini_last_definition_wins() {
    let text = "thread=1\nthread=2\nthread=x\n";
    assert_eq!(AppConfig::from_ini(text).thread, 10);
    let text = "thread=1\nthread=2\n";
    assert_eq!(AppConfig::from_ini(text).thread, 2);
    let text = "thread=5=6\n";
    assert_eq!(AppConfig::from_ini(text).thread, 10);
    let text = "thread=99999999999999999999999999\n";
    assert_eq!(AppConfig::from_ini(text).thread, 10);
}

#[test]
fn trigger_text_is_the_last_time_line() {
    assert_eq!(read_trigger_text(""), "18:59:59");
    assert_eq!(read_trigger_text("thread=1\n"), "18:59:59");
    assert_eq!(read_trigger_text("time=09:30:00\n"), "09:30:00");
    assert_eq!(read_trigger_text("  time= 07:00:01 \r\ntime=08:00:02"), "08:00:02");
    assert_eq!(read_trigger_text("time =07:00:01"), "18:59:59");
    assert_eq!(read_trigger_text("time="), "");
}

#[test]
fn trigger_time_is_read_or_defaulted_or_refused() {
    let default = TimeOfDay { hour: 18, minute: 59, second: 59 };
    let t = TimeOfDay { hour: 1, minute: 2, second: 3 };
    assert_eq!(chosen_trigger(false, None), Ok(default));
    assert_eq!(chosen_trigger(false, Some(t)), Ok(default));
    assert_eq!(chosen_trigger(true, Some(t)), Ok(t));
    assert_eq!(chosen_trigger(true, None), Err(ErrorKind::InvalidTarget));
    assert_eq!(read_trigger_time(""), Ok(default));
    assert_eq!(read_trigger_time("thread=3\n#time=08:00:00\n"), Ok(default));
    assert_eq!(
        read_trigger_time("time=09:30:05\n"),
        Ok(TimeOfDay { hour: 9, minute: 30, second: 5 })
    );
    assert_eq!(read_trigger_time("time=25:00:00\n"), Err(ErrorKind::InvalidTarget));
    assert_eq!(read_trigger_time("time=soon\n"), Err(ErrorKind::InvalidTarget));
    assert_eq!(read_trigger_time("time=\n"), Err(ErrorKind::InvalidTarget));
    assert_eq!(read_trigger_time("time=08:00:00\ntime=x\n"), Err(ErrorKind::InvalidTarget));
    assert_eq!(
        read_trigger_time("time=7:5:9"),
        Ok(TimeOfDay { hour: 7, minute: 5, second: 9 })
    );
    assert_eq!(read_trigger_setting(""), None);
    assert_eq!(read_trigger_setting("time= 1 \n"), Some("1".to_string()));
}

#[test]
fn account_file_gives_the_target() {
    let file = ConfigFile {
        header: HeaderConfig { auth_token: "t".to_string(), user_agent: "ua".to_string() },
        body: BodyConfig {
            community_id: "54".to_string(),
            red_pack_task_id: "66578".to_string(),
            zone_id: "214".to_string(),
        },
    };
    assert_eq!(
        file.body.target(),
        ClaimTarget {
            community_id: "54".to_string(),
            zone: "214".to_string(),
            task_id: "66578".to_string(),
        }
    );
    assert_eq!(file.header.clone(), file.header);
    assert_eq!(file.body.clone(), file.body);
}

#[test]
fn proxy_list_is_split_at_line_feeds() {
    assert_eq!(ProxyConfig::new(vec![]).proxy_list, Vec::<String>::new());
    let empty = ProxyConfig::new(vec![]);
    let list = empty.get_proxy("1.2.3.4:80\n5.6.7.8:8080\r\n");
    assert_eq!(list, vec!["1.2.3.4:80".to_string(), "5.6.7.8:8080\r".to_string(), String::new()]);
    assert_eq!(empty.get_proxy(""), vec![String::new()]);
    let c = ProxyConfig::new(list.clone());
    assert_eq!(c.proxy_list, list);
}
