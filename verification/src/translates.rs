//! The client's user-facing strings in each supported language.
use crate::text::dec_digits;
use vstd::prelude::*;

verus! {

/// A language the client can display its interface in.
#[derive(Clone, Debug, PartialEq, Eq, Structural)]
pub enum Language {
    English,
    Russian,
}

/// Picks the user-facing string for each message in the chosen language.
#[derive(Clone, Debug)]
pub struct Translator {
    pub language: Language,
}

impl Translator {
    /// A translator for the given language.
    pub fn new(language: Language) -> (t: Translator)
        ensures
            t.language == language,
    {
        Translator { language }
    }

    pub fn add_server(&self) -> (r: String)
        ensures
            self.language is English ==> r@ == "Add server"@,
            self.language is Russian ==> r@ == "–î–æ–±–∞–≤–∏—Ç—å —Å–µ—Ä–≤–µ—Ä"@,
    {
        match self.language {
            Language::English => "Add server".to_owned(),
            Language::Russian => "–î–æ–±–∞–≤–∏—Ç—å —Å–µ—Ä–≤–µ—Ä".to_owned(),
        }
    }

    pub fn name(&self) -> (r: String)
        ensures
            self.language is English ==> r@ == "Name"@,
            self.language is Russian ==> r@ == "–ò–º—è"@,
    {
        match self.language {
            Language::English => "Name".to_owned(),
            Language::Russian => "–ò–º—è".to_owned(),
        }
    }

    pub fn server_address(&self) -> (r: String)
        ensures
            self.language is English ==> r@ == "Server address"@,
            self.language is Russian ==> r@ == "–ê–¥—Ä–µ—Å —Å–µ—Ä–≤–µ—Ä–∞"@,
    {
        match self.language {
            Language::English => "Server address".to_owned(),
            Language::Russian => "–ê–¥—Ä–µ—Å —Å–µ—Ä–≤–µ—Ä–∞".to_owned(),
        }
    }

    pub fn port(&self) -> (r: String)
        ensures
            self.language is English ==> r@ == "Port"@,
            self.language is Russian ==> r@ == "–ü–æ—Ä—Ç"@,
    {
        match self.language {
            Language::English => "Port".to_owned(),
            Language::Russian => "–ü–æ—Ä—Ç".to_owned(),
        }
    }

    pub fn user(&self) -> (r: String)
        ensures
            self.language is English ==> r@ == "User"@,
            self.language is Russian ==> r@ == "–ü–æ–ª—å–∑–æ–≤–∞—Ç–µ–ª—å"@,
    {
        match self.language {
            Language::English => "User".to_owned(),
            Language::Russian => "–ü–æ–ª—å–∑–æ–≤–∞—Ç–µ–ª—å".to_owned(),
        }
    }

    pub fn password(&self) -> (r: String)
        ensures
            self.language is English ==> r@ == "Password"@,
            self.language is Russian ==> r@ == "–ü–∞—Ä–æ–ª—å"@,
    {
        match self.language {
            Language::English => "Password".to_owned(),
            Language::Russian => "–ü–∞—Ä–æ–ª—å".to_owned(),
        }
    }

    pub fn service_database(&self) -> (r: String)
        ensures
            self.language is English ==> r@ == "Service database"@,
            self.language is Russian ==> r@ == "–°–µ—Ä–≤–∏—Å–Ω–∞—è –±–∞–∑–∞ –¥–∞–Ω–Ω—ã—Ö"@,
    {
        match self.language {
            Language::English => "Service database".to_owned(),
            Language::Russian => "–°–µ—Ä–≤–∏—Å–Ω–∞—è –±–∞–∑–∞ –¥–∞–Ω–Ω—ã—Ö".to_owned(),
        }
    }

    pub fn language(&self) -> (r: String)
        ensures
            self.language is English ==> r@ == "Language"@,
            self.language is Russian ==> r@ == "–Ø–∑—ã–∫"@,
    {
        match self.language {
            Language::English => "Language".to_owned(),
            Language::Russian => "–Ø–∑—ã–∫".to_owned(),
        }
    }

    pub fn settings(&self) -> (r: String)
        ensures
            self.language is English ==> r@ == "Settings"@,
            self.language is Russian ==> r@ == "–ù–∞—Å—Ç—Ä–æ–π–∫–∏"@,
    {
        match self.language {
            Language::English => "Settings".to_owned(),
            Language::Russian => "–ù–∞—Å—Ç—Ä–æ–π–∫–∏".to_owned(),
        }
    }

    pub fn scale_factor(&self) -> (r: String)
        ensures
            self.language is English ==> r@ == "Scale factor"@,
            self.language is Russian ==> r@ == "–ú–∞—Å—à—Ç–∞–±"@,
    {
        match self.language {
            Language::English => "Scale factor".to_owned(),
            Language::Russian => "–ú–∞—Å—à—Ç–∞–±".to_owned(),
        }
    }

    pub fn theme(&self) -> (r: String)
        ensures
            self.language is English ==> r@ == "Theme"@,
            self.language is Russian ==> r@ == "–¢–µ–º–∞"@,
    {
        match self.language {
            Language::English => "Theme".to_owned(),
            Language::Russian => "–¢–µ–º–∞".to_owned(),
        }
    }

    pub fn light(&self) -> (r: String)
        ensures
            self.language is English ==> r@ == "Light"@,
            self.language is Russian ==> r@ == "–°–≤–µ—Ç–ª–∞—è"@,
    {
        match self.language {
            Language::English => "Light".to_owned(),
            Language::Russian => "–°–≤–µ—Ç–ª–∞—è".to_owned(),
        }
    }

    pub fn dark(&self) -> (r: String)
        ensures
            self.language is English ==> r@ == "Dark"@,
            self.language is Russian ==> r@ == "–¢–µ–º–Ω–∞—è"@,
    {
        match self.language {
            Language::English => "Dark".to_owned(),
            Language::Russian => "–¢–µ–º–Ω–∞—è".to_owned(),
        }
    }

    pub fn name_is_required(&self) -> (r: String)
        ensures
            self.language is English ==> r@ == "- "@ + "Name is required"@,
            self.language is Russian ==> r@ == "- "@ + "–ò–º—è –æ–±—è–∑–∞—Ç–µ–ª—å–Ω–æ"@,
    {
        let mut r = String::from_str("- ");
        let tail = match self.language {
            Language::English => "Name is required".to_owned(),
            Language::Russian => "–ò–º—è –æ–±—è–∑–∞—Ç–µ–ª—å–Ω–æ".to_owned(),
        };
        r.append(tail.as_str());
        r
    }

    pub fn name_must_be_less_than_32_characters(&self) -> (r: String)
        ensures
            self.language is English ==> r@ == "- "@ + "Name must be less than 32 characters"@,
            self.language is Russian ==> r@ == "- "@ + "–ò–º—è –¥–æ–ª–∂–Ω–æ –±—ã—Ç—å –º–µ–Ω—å—à–µ 32 —Å–∏–º–≤–æ–ª–æ–≤"@,
    {
        let mut r = String::from_str("- ");
        let tail = match self.language {
            Language::English => "Name must be less than 32 characters".to_owned(),
            Language::Russian => "–ò–º—è –¥–æ–ª–∂–Ω–æ –±—ã—Ç—å –º–µ–Ω—å—à–µ 32 —Å–∏–º–≤–æ–ª–æ–≤".to_owned(),
        };
        r.append(tail.as_str());
        r
    }

    pub fn name_must_be_unique(&self) -> (r: String)
        ensures
            self.language is English ==> r@ == "- "@ + "Name must be unique"@,
            self.language is Russian ==> r@ == "- "@ + "–ò–º—è –¥–æ–ª–∂–Ω–æ –±—ã—Ç—å —É–Ω–∏–∫–∞–ª—å–Ω—ã–º"@,
    {
        let mut r = String::from_str("- ");
        let tail = match self.language {
            Language::English => "Name must be unique".to_owned(),
            Language::Russian => "–ò–º—è –¥–æ–ª–∂–Ω–æ –±—ã—Ç—å —É–Ω–∏–∫–∞–ª—å–Ω—ã–º".to_owned(),
        };
        r.append(tail.as_str());
        r
    }

    pub fn port_is_required(&self) -> (r: String)
        ensures
            self.language is English ==> r@ == "- "@ + "Port is required"@,
            self.language is Russian ==> r@ == "- "@ + "–ü–æ—Ä—Ç –æ–±—è–∑–∞—Ç–µ–ª–µ–Ω"@,
    {
        let mut r = String::from_str("- ");
        let tail = match self.language {
            Language::English => "Port is required".to_owned(),
            Language::Russian => "–ü–æ—Ä—Ç –æ–±—è–∑–∞—Ç–µ–ª–µ–Ω".to_owned(),
        };
        r.append(tail.as_str());
        r
    }

    pub fn user_is_required(&self) -> (r: String)
        ensures
            self.language is English ==> r@ == "- "@ + "User is required"@,
            self.language is Russian ==> r@ == "- "@ + "–ü–æ–ª—å–∑–æ–≤–∞—Ç–µ–ª—å –æ–±—è–∑–∞—Ç–µ–ª–µ–Ω"@,
    {
        let mut r = String::from_str("- ");
        let tail = match self.language {
            Language::English => "User is required".to_owned(),
            Language::Russian => "–ü–æ–ª—å–∑–æ–≤–∞—Ç–µ–ª—å –æ–±—è–∑–∞—Ç–µ–ª–µ–Ω".to_owned(),
        };
        r.append(tail.as_str());
        r
    }

    pub fn ip_is_required(&self) -> (r: String)
        ensures
            self.language is English ==> r@ == "- "@ + "IP is required"@,
            self.language is Russian ==> r@ == "- "@ + "IP –æ–±—è–∑–∞—Ç–µ–ª–µ–Ω"@,
    {
        let mut r = String::from_str("- ");
        let tail = match self.language {
            Language::English => "IP is required".to_owned(),
            Language::Russian => "IP –æ–±—è–∑–∞—Ç–µ–ª–µ–Ω".to_owned(),
        };
        r.append(tail.as_str());
        r
    }

    pub fn incorrect_port_value(&self) -> (r: String)
        ensures
            self.language is English ==> r@ == "- "@ + "Incorrect port value"@,
            self.language is Russian ==> r@ == "- "@ + "–ù–µ–∫–æ—Ä—Ä–µ–∫—Ç–Ω—ã–π –ø–æ—Ä—Ç"@,
    {
        let mut r = String::from_str("- ");
        let tail = match self.language {
            Language::English => "Incorrect port value".to_owned(),
            Language::Russian => "–ù–µ–∫–æ—Ä—Ä–µ–∫—Ç–Ω—ã–π –ø–æ—Ä—Ç".to_owned(),
        };
        r.append(tail.as_str());
        r
    }

    pub fn service_database_is_required(&self) -> (r: String)
        ensures
            self.language is English ==> r@ == "- "@ + "Service database is required"@,
            self.language is Russian ==> r@ == "- "@ + "–°–µ—Ä–≤–∏—Å–Ω–∞—è –±–∞–∑–∞ –¥–∞–Ω–Ω—ã—Ö –æ–±—è–∑–∞—Ç–µ–ª—å–Ω–∞"@,
    {
        let mut r = String::from_str("- ");
        let tail = match self.language {
            Language::English => "Service database is required".to_owned(),
            Language::Russian => "–°–µ—Ä–≤–∏—Å–Ω–∞—è –±–∞–∑–∞ –¥–∞–Ω–Ω—ã—Ö –æ–±—è–∑–∞—Ç–µ–ª—å–Ω–∞".to_owned(),
        };
        r.append(tail.as_str());
        r
    }

    pub fn save(&self) -> (r: String)
        ensures
            self.language is English ==> r@ == "Save"@,
            self.language is Russian ==> r@ == "–°–æ—Ö—Ä–∞–Ω–∏—Ç—å"@,
    {
        match self.language {
            Language::English => "Save".to_owned(),
            Language::Russian => "–°–æ—Ö—Ä–∞–Ω–∏—Ç—å".to_owned(),
        }
    }

    pub fn export_to_csv(&self) -> (r: String)
        ensures
            self.language is English ==> r@ == "Export to CSV"@,
            self.language is Russian ==> r@ == "–≠–∫—Å–ø–æ—Ä—Ç –≤ CSV"@,
    {
        match self.language {
            Language::English => "Export to CSV".to_owned(),
            Language::Russian => "–≠–∫—Å–ø–æ—Ä—Ç –≤ CSV".to_owned(),
        }
    }

    pub fn open(&self) -> (r: String)
        ensures
            self.language is English ==> r@ == "Open"@,
            self.language is Russian ==> r@ == "–û—Ç–∫—Ä—ã—Ç—å"@,
    {
        match self.language {
            Language::English => "Open".to_owned(),
            Language::Russian => "–û—Ç–∫—Ä—ã—Ç—å".to_owned(),
        }
    }

    pub fn back(&self) -> (r: String)
        ensures
            self.language is English ==> r@ == "Back"@,
            self.language is Russian ==> r@ == "–ù–∞–∑–∞–¥"@,
    {
        match self.language {
            Language::English => "Back".to_owned(),
            Language::Russian => "–ù–∞–∑–∞–¥".to_owned(),
        }
    }

    pub fn delete_server(&self) -> (r: String)
        ensures
            self.language is English ==> r@ == "Delete server"@,
            self.language is Russian ==> r@ == "–£–¥–∞–ª–∏—Ç—å —Å–µ—Ä–≤–µ—Ä"@,
    {
        match self.language {
            Language::English => "Delete server".to_owned(),
            Language::Russian => "–£–¥–∞–ª–∏—Ç—å —Å–µ—Ä–≤–µ—Ä".to_owned(),
        }
    }

    pub fn edit_server(&self) -> (r: String)
        ensures
            self.language is English ==> r@ == "Edit server"@,
            self.language is Russian ==> r@ == "–†–µ–¥–∞–∫—Ç–∏—Ä–æ–≤–∞—Ç—å —Å–µ—Ä–≤–µ—Ä"@,
    {
        match self.language {
            Language::English => "Edit server".to_owned(),
            Language::Russian => "–†–µ–¥–∞–∫—Ç–∏—Ä–æ–≤–∞—Ç—å —Å–µ—Ä–≤–µ—Ä".to_owned(),
        }
    }

    pub fn delete_server_confirmation(&self) -> (r: String)
        ensures
            self.language is English ==> r@ == "Are you sure you want to delete this server?"@,
            self.language is Russian ==> r@ == "–í—ã —É–≤–µ—Ä–µ–Ω—ã, —á—Ç–æ —Ö–æ—Ç–∏—Ç–µ —É–¥–∞–ª–∏—Ç—å —ç—Ç–æ—Ç —Å–µ—Ä–≤–µ—Ä?"@,
    {
        match self.language {
            Language::English => "Are you sure you want to delete this server?".to_owned(),
            Language::Russian => "–í—ã —É–≤–µ—Ä–µ–Ω—ã, —á—Ç–æ —Ö–æ—Ç–∏—Ç–µ —É–¥–∞–ª–∏—Ç—å —ç—Ç–æ—Ç —Å–µ—Ä–≤–µ—Ä?".to_owned(),
        }
    }

    pub fn yes(&self) -> (r: String)
        ensures
            self.language is English ==> r@ == "Yes"@,
            self.language is Russian ==> r@ == "–î–∞"@,
    {
        match self.language {
            Language::English => "Yes".to_owned(),
            Language::Russian => "–î–∞".to_owned(),
        }
    }

    pub fn no(&self) -> (r: String)
        ensures
            self.language is English ==> r@ == "No"@,
            self.language is Russian ==> r@ == "–ù–µ—Ç"@,
    {
        match self.language {
            Language::English => "No".to_owned(),
            Language::Russian => "–ù–µ—Ç".to_owned(),
        }
    }

    pub fn text_viewer(&self) -> (r: String)
        ensures
            self.language is English ==> r@ == "Text viewer"@,
            self.language is Russian ==> r@ == "–¢–µ–∫—Å—Ç–æ–≤—ã–π –ø—Ä–æ—Å–º–æ—Ç—Ä—â–∏–∫"@,
    {
        match self.language {
            Language::English => "Text viewer".to_owned(),
            Language::Russian => "–¢–µ–∫—Å—Ç–æ–≤—ã–π –ø—Ä–æ—Å–º–æ—Ç—Ä—â–∏–∫".to_owned(),
        }
    }

    pub fn copy(&self) -> (r: String)
        ensures
            self.language is English ==> r@ == "Copy"@,
            self.language is Russian ==> r@ == "–ö–æ–ø–∏—Ä–æ–≤–∞—Ç—å"@,
    {
        match self.language {
            Language::English => "Copy".to_owned(),
            Language::Russian => "–ö–æ–ø–∏—Ä–æ–≤–∞—Ç—å".to_owned(),
        }
    }

    pub fn close(&self) -> (r: String)
        ensures
            self.language is English ==> r@ == "Close"@,
            self.language is Russian ==> r@ == "–ó–∞–∫—Ä—ã—Ç—å"@,
    {
        match self.language {
            Language::English => "Close".to_owned(),
            Language::Russian => "–ó–∞–∫—Ä—ã—Ç—å".to_owned(),
        }
    }

    pub fn welcome(&self) -> (r: String)
        ensures
            self.language is English ==> r@ == "Welcome to Rs-Postgres: Rust-based PostgreSQL client."@,
            self.language is Russian ==> r@ == "–î–æ–±—Ä–æ –ø–æ–∂–∞–ª–æ–≤–∞—Ç—å –≤ Rs-Postgres: Rust-based PostgreSQL –∫–ª–∏–µ–Ω—Ç."@,
    {
        match self.language {
            Language::English => "Welcome to Rs-Postgres: Rust-based PostgreSQL client.".to_owned(),
            Language::Russian => "–î–æ–±—Ä–æ –ø–æ–∂–∞–ª–æ–≤–∞—Ç—å –≤ Rs-Postgres: Rust-based PostgreSQL –∫–ª–∏–µ–Ω—Ç.".to_owned(),
        }
    }

    pub fn features(&self) -> (r: String)
        ensures
            self.language is English ==> r@ == "Features"@,
            self.language is Russian ==> r@ == "–§—É–Ω–∫—Ü–∏–∏"@,
    {
        match self.language {
            Language::English => "Features".to_owned(),
            Language::Russian => "–§—É–Ω–∫—Ü–∏–∏".to_owned(),
        }
    }

    pub fn features_content(&self) -> (r: String)
        ensures
            self.language is English ==> r@ == r#"‚Ä¢ Lightweight and fast
‚Ä¢ Secure encryption of server credentials
‚Ä¢ Connect to multiple PostgreSQL servers
‚Ä¢ Manage databases through GUI
‚Ä¢ Execute SQL queries with results view"#@,
            self.language is Russian ==> r@ == r#"‚Ä¢ –õ–µ–≥–∫–∏–π –∏ –±—ã—Å—Ç—Ä—ã–π
‚Ä¢ –ë–µ–∑–æ–ø–∞—Å–Ω–æ–µ —à–∏—Ñ—Ä–æ–≤–∞–Ω–∏–µ —É—á–µ—Ç–Ω—ã—Ö –¥–∞–Ω–Ω—ã—Ö —Å–µ—Ä–≤–µ—Ä–∞
‚Ä¢ –ü–æ–¥–∫–ª—é—á–µ–Ω–∏–µ –∫–æ –º–Ω–æ–∂–µ—Å—Ç–≤—É —Å–µ—Ä–≤–µ—Ä–æ–≤ PostgreSQL
‚Ä¢ –£–ø—Ä–∞–≤–ª–µ–Ω–∏–µ –±–∞–∑–∞–º–∏ –¥–∞–Ω–Ω—ã—Ö —á–µ—Ä–µ–∑ –≥—Ä–∞—Ñ–∏—á–µ—Å–∫–∏–π –∏–Ω—Ç–µ—Ä—Ñ–µ–π—Å
‚Ä¢ –í—ã–ø–æ–ª–Ω–µ–Ω–∏–µ SQL-–∑–∞–ø—Ä–æ—Å–æ–≤ —Å –ø—Ä–æ—Å–º–æ—Ç—Ä–æ–º —Ä–µ–∑—É–ª—å—Ç–∞—Ç–æ–≤"#@,
    {
        match self.language {
            Language::English => r#"‚Ä¢ Lightweight and fast
‚Ä¢ Secure encryption of server credentials
‚Ä¢ Connect to multiple PostgreSQL servers
‚Ä¢ Manage databases through GUI
‚Ä¢ Execute SQL queries with results view"#.to_owned(),
            Language::Russian => r#"‚Ä¢ –õ–µ–≥–∫–∏–π –∏ –±—ã—Å—Ç—Ä—ã–π
‚Ä¢ –ë–µ–∑–æ–ø–∞—Å–Ω–æ–µ —à–∏—Ñ—Ä–æ–≤–∞–Ω–∏–µ —É—á–µ—Ç–Ω—ã—Ö –¥–∞–Ω–Ω—ã—Ö —Å–µ—Ä–≤–µ—Ä–∞
‚Ä¢ –ü–æ–¥–∫–ª—é—á–µ–Ω–∏–µ –∫–æ –º–Ω–æ–∂–µ—Å—Ç–≤—É —Å–µ—Ä–≤–µ—Ä–æ–≤ PostgreSQL
‚Ä¢ –£–ø—Ä–∞–≤–ª–µ–Ω–∏–µ –±–∞–∑–∞–º–∏ –¥–∞–Ω–Ω—ã—Ö —á–µ—Ä–µ–∑ –≥—Ä–∞—Ñ–∏—á–µ—Å–∫–∏–π –∏–Ω—Ç–µ—Ä—Ñ–µ–π—Å
‚Ä¢ –í—ã–ø–æ–ª–Ω–µ–Ω–∏–µ SQL-–∑–∞–ø—Ä–æ—Å–æ–≤ —Å –ø—Ä–æ—Å–º–æ—Ç—Ä–æ–º —Ä–µ–∑—É–ª—å—Ç–∞—Ç–æ–≤"#.to_owned(),
        }
    }

    pub fn get_started(&self) -> (r: String)
        ensures
            self.language is English ==> r@ == "Getting started"@,
            self.language is Russian ==> r@ == "–ù–∞—á–∞–ª–æ —Ä–∞–±–æ—Ç—ã"@,
    {
        match self.language {
            Language::English => "Getting started".to_owned(),
            Language::Russian => "–ù–∞—á–∞–ª–æ —Ä–∞–±–æ—Ç—ã".to_owned(),
        }
    }

    pub fn get_started_content(&self) -> (r: String)
        ensures
            self.language is English ==> r@ == r#"1. Click "Add server" in left panel
2. Enter server connection parameters
3. Select database in connection tree
4. Start working with SQL queries by clicking "SQL Query" button or choosing preset script"#@,
            self.language is Russian ==> r@ == r#"1. –ù–∞–∂–º–∏—Ç–µ "–î–æ–±–∞–≤–∏—Ç—å —Å–µ—Ä–≤–µ—Ä" –Ω–∞ –ª–µ–≤–æ–π –ø–∞–Ω–µ–ª–∏
2. –í–≤–µ–¥–∏—Ç–µ –ø–∞—Ä–∞–º–µ—Ç—Ä—ã –ø–æ–¥–∫–ª—é—á–µ–Ω–∏—è –∫ —Å–µ—Ä–≤–µ—Ä—É
3. –í—ã–±–µ—Ä–∏—Ç–µ –±–∞–∑—É –¥–∞–Ω–Ω—ã—Ö –≤ –¥–µ—Ä–µ–≤–µ —Å–æ–µ–¥–∏–Ω–µ–Ω–∏–π.
4. –ù–∞—á–Ω–∏—Ç–µ —Ä–∞–±–æ—Ç—É —Å SQL-–∑–∞–ø—Ä–æ—Å–∞–º–∏, –Ω–∞–∂–∞–≤ –∫–Ω–æ–ø–∫—É "SQL Query" –∏–ª–∏ –≤—ã–±—Ä–∞–≤ –ø—Ä–µ–¥—É—Å—Ç–∞–Ω–æ–≤–ª–µ–Ω–Ω—ã–π —Å–∫—Ä–∏–ø—Ç."#@,
    {
        match self.language {
            Language::English => r#"1. Click "Add server" in left panel
2. Enter server connection parameters
3. Select database in connection tree
4. Start working with SQL queries by clicking "SQL Query" button or choosing preset script"#.to_owned(),
            Language::Russian => r#"1. –ù–∞–∂–º–∏—Ç–µ "–î–æ–±–∞–≤–∏—Ç—å —Å–µ—Ä–≤–µ—Ä" –Ω–∞ –ª–µ–≤–æ–π –ø–∞–Ω–µ–ª–∏
2. –í–≤–µ–¥–∏—Ç–µ –ø–∞—Ä–∞–º–µ—Ç—Ä—ã –ø–æ–¥–∫–ª—é—á–µ–Ω–∏—è –∫ —Å–µ—Ä–≤–µ—Ä—É
3. –í—ã–±–µ—Ä–∏—Ç–µ –±–∞–∑—É –¥–∞–Ω–Ω—ã—Ö –≤ –¥–µ—Ä–µ–≤–µ —Å–æ–µ–¥–∏–Ω–µ–Ω–∏–π.
4. –ù–∞—á–Ω–∏—Ç–µ —Ä–∞–±–æ—Ç—É —Å SQL-–∑–∞–ø—Ä–æ—Å–∞–º–∏, –Ω–∞–∂–∞–≤ –∫–Ω–æ–ø–∫—É "SQL Query" –∏–ª–∏ –≤—ã–±—Ä–∞–≤ –ø—Ä–µ–¥—É—Å—Ç–∞–Ω–æ–≤–ª–µ–Ω–Ω—ã–π —Å–∫—Ä–∏–ø—Ç."#.to_owned(),
        }
    }

    pub fn resources(&self) -> (r: String)
        ensures
            self.language is English ==> r@ == "Resources"@,
            self.language is Russian ==> r@ == "–†–µ—Å—É—Ä—Å—ã"@,
    {
        match self.language {
            Language::English => "Resources".to_owned(),
            Language::Russian => "–†–µ—Å—É—Ä—Å—ã".to_owned(),
        }
    }

    pub fn github(&self) -> (r: String)
        ensures
            self.language is English ==> r@ == "üêô GitHub"@,
            self.language is Russian ==> r@ == "üêô GitHub"@,
    {
        match self.language {
            Language::English => "üêô GitHub".to_owned(),
            Language::Russian => "üêô GitHub".to_owned(),
        }
    }

    pub fn open_repo(&self) -> (r: String)
        ensures
            self.language is English ==> r@ == "Open repository"@,
            self.language is Russian ==> r@ == "–û—Ç–∫—Ä—ã—Ç—å —Ä–µ–ø–æ–∑–∏—Ç–æ—Ä–∏–π"@,
    {
        match self.language {
            Language::English => "Open repository".to_owned(),
            Language::Russian => "–û—Ç–∫—Ä—ã—Ç—å —Ä–µ–ø–æ–∑–∏—Ç–æ—Ä–∏–π".to_owned(),
        }
    }

    pub fn license(&self) -> (r: String)
        ensures
            self.language is English ==> r@ == "üìù License"@,
            self.language is Russian ==> r@ == "üìù –õ–∏—Ü–µ–Ω–∑–∏—è"@,
    {
        match self.language {
            Language::English => "üìù License".to_owned(),
            Language::Russian => "üìù –õ–∏—Ü–µ–Ω–∑–∏—è".to_owned(),
        }
    }

    pub fn open_license(&self) -> (r: String)
        ensures
            self.language is English ==> r@ == "Open license"@,
            self.language is Russian ==> r@ == "–û—Ç–∫—Ä—ã—Ç—å –ª–∏—Ü–µ–Ω–∑–∏—é"@,
    {
        match self.language {
            Language::English => "Open license".to_owned(),
            Language::Russian => "–û—Ç–∫—Ä—ã—Ç—å –ª–∏—Ü–µ–Ω–∑–∏—é".to_owned(),
        }
    }

    pub fn support(&self) -> (r: String)
        ensures
            self.language is English ==> r@ == "üì® Support"@,
            self.language is Russian ==> r@ == "üì® –ü–æ–¥–¥–µ—Ä–∂–∫–∞"@,
    {
        match self.language {
            Language::English => "üì® Support".to_owned(),
            Language::Russian => "üì® –ü–æ–¥–¥–µ—Ä–∂–∫–∞".to_owned(),
        }
    }

    pub fn open_support(&self) -> (r: String)
        ensures
            self.language is English ==> r@ == "Open support"@,
            self.language is Russian ==> r@ == "–û—Ç–∫—Ä—ã—Ç—å –ø–æ–¥–¥–µ—Ä–∂–∫—É"@,
    {
        match self.language {
            Language::English => "Open support".to_owned(),
            Language::Russian => "–û—Ç–∫—Ä—ã—Ç—å –ø–æ–¥–¥–µ—Ä–∂–∫—É".to_owned(),
        }
    }

    pub fn run_f5(&self) -> (r: String)
        ensures
            self.language is English ==> r@ == "Run (F5)"@,
            self.language is Russian ==> r@ == "–í—ã–ø–æ–ª–Ω–∏—Ç—å (F5)"@,
    {
        match self.language {
            Language::English => "Run (F5)".to_owned(),
            Language::Russian => "–í—ã–ø–æ–ª–Ω–∏—Ç—å (F5)".to_owned(),
        }
    }

    pub fn clear(&self) -> (r: String)
        ensures
            self.language is English ==> r@ == "Clear"@,
            self.language is Russian ==> r@ == "–û—á–∏—Å—Ç–∏—Ç—å"@,
    {
        match self.language {
            Language::English => "Clear".to_owned(),
            Language::Russian => "–û—á–∏—Å—Ç–∏—Ç—å".to_owned(),
        }
    }

    pub fn file(&self) -> (r: String)
        ensures
            self.language is English ==> r@ == "File:"@,
            self.language is Russian ==> r@ == "–§–∞–π–ª:"@,
    {
        match self.language {
            Language::English => "File:".to_owned(),
            Language::Russian => "–§–∞–π–ª:".to_owned(),
        }
    }

    pub fn running(&self) -> (r: String)
        ensures
            self.language is English ==> r@ == "Running..."@,
            self.language is Russian ==> r@ == "–í—ã–ø–æ–ª–Ω—è–µ—Ç—Å—è..."@,
    {
        match self.language {
            Language::English => "Running...".to_owned(),
            Language::Russian => "–í—ã–ø–æ–ª–Ω—è–µ—Ç—Å—è...".to_owned(),
        }
    }

    pub fn success(&self) -> (r: String)
        ensures
            self.language is English ==> r@ == "Success"@,
            self.language is Russian ==> r@ == "–£—Å–ø–µ—à–Ω–æ"@,
    {
        match self.language {
            Language::English => "Success".to_owned(),
            Language::Russian => "–£—Å–ø–µ—à–Ω–æ".to_owned(),
        }
    }

    pub fn click_to_copy(&self) -> (r: String)
        ensures
            self.language is English ==> r@ == "Click to copy"@,
            self.language is Russian ==> r@ == "–ù–∞–∂–º–∏—Ç–µ, —á—Ç–æ–±—ã —Å–∫–æ–ø–∏—Ä–æ–≤–∞—Ç—å"@,
    {
        match self.language {
            Language::English => "Click to copy".to_owned(),
            Language::Russian => "–ù–∞–∂–º–∏—Ç–µ, —á—Ç–æ–±—ã —Å–∫–æ–ø–∏—Ä–æ–≤–∞—Ç—å".to_owned(),
        }
    }

    pub fn no_data_returned(&self) -> (r: String)
        ensures
            self.language is English ==> r@ == "No data returned"@,
            self.language is Russian ==> r@ == "–ù–µ—Ç –¥–∞–Ω–Ω—ã—Ö"@,
    {
        match self.language {
            Language::English => "No data returned".to_owned(),
            Language::Russian => "–ù–µ—Ç –¥–∞–Ω–Ω—ã—Ö".to_owned(),
        }
    }

    pub fn error(&self) -> (r: String)
        ensures
            self.language is English ==> r@ == "Error!"@,
            self.language is Russian ==> r@ == "–û—à–∏–±–∫–∞!"@,
    {
        match self.language {
            Language::English => "Error!".to_owned(),
            Language::Russian => "–û—à–∏–±–∫–∞!".to_owned(),
        }
    }

    pub fn clear_storage(&self) -> (r: String)
        ensures
            self.language is English ==> r@ == "Clear storage"@,
            self.language is Russian ==> r@ == "–û—á–∏—Å—Ç–∏—Ç—å —Ö—Ä–∞–Ω–∏–ª–∏—â–µ"@,
    {
        match self.language {
            Language::English => "Clear storage".to_owned(),
            Language::Russian => "–û—á–∏—Å—Ç–∏—Ç—å —Ö—Ä–∞–Ω–∏–ª–∏—â–µ".to_owned(),
        }
    }

    pub fn clear_storage_confirmation(&self) -> (r: String)
        ensures
            self.language is English ==> r@ == "Do you want to clear storage? This action is irreversible."@,
            self.language is Russian ==> r@ == "–í—ã —É–≤–µ—Ä–µ–Ω—ã, —á—Ç–æ —Ö–æ—Ç–∏—Ç–µ –æ—á–∏—Å—Ç–∏—Ç—å —Ö—Ä–∞–Ω–∏–ª–∏—â–µ? –≠—Ç–æ –¥–µ–π—Å—Ç–≤–∏–µ –Ω–µ–æ–±—Ä–∞—Ç–∏–º–æ."@,
    {
        match self.language {
            Language::English => "Do you want to clear storage? This action is irreversible.".to_owned(),
            Language::Russian => "–í—ã —É–≤–µ—Ä–µ–Ω—ã, —á—Ç–æ —Ö–æ—Ç–∏—Ç–µ –æ—á–∏—Å—Ç–∏—Ç—å —Ö—Ä–∞–Ω–∏–ª–∏—â–µ? –≠—Ç–æ –¥–µ–π—Å—Ç–≤–∏–µ –Ω–µ–æ–±—Ä–∞—Ç–∏–º–æ.".to_owned(),
        }
    }

    pub fn login(&self) -> (r: String)
        ensures
            self.language is English ==> r@ == "Login"@,
            self.language is Russian ==> r@ == "–í—Ö–æ–¥"@,
    {
        match self.language {
            Language::English => "Login".to_owned(),
            Language::Russian => "–í—Ö–æ–¥".to_owned(),
        }
    }

    pub fn enter_encryption_password(&self) -> (r: String)
        ensures
            self.language is English ==> r@ == "Enter encryption password:"@,
            self.language is Russian ==> r@ == "–í–≤–µ–¥–∏—Ç–µ –ø–∞—Ä–æ–ª—å —à–∏—Ñ—Ä–æ–≤–∞–Ω–∏—è:"@,
    {
        match self.language {
            Language::English => "Enter encryption password:".to_owned(),
            Language::Russian => "–í–≤–µ–¥–∏—Ç–µ –ø–∞—Ä–æ–ª—å —à–∏—Ñ—Ä–æ–≤–∞–Ω–∏—è:".to_owned(),
        }
    }

    pub fn create_encryption_password(&self) -> (r: String)
        ensures
            self.language is English ==> r@ == "Create encryption password:"@,
            self.language is Russian ==> r@ == "–ó–∞–¥–∞–π—Ç–µ –ø–∞—Ä–æ–ª—å —à–∏—Ñ—Ä–æ–≤–∞–Ω–∏—è:"@,
    {
        match self.language {
            Language::English => "Create encryption password:".to_owned(),
            Language::Russian => "–ó–∞–¥–∞–π—Ç–µ –ø–∞—Ä–æ–ª—å —à–∏—Ñ—Ä–æ–≤–∞–Ω–∏—è:".to_owned(),
        }
    }

    pub fn incorrect_password_hash_mismatch(&self) -> (r: String)
        ensures
            self.language is English ==> r@ == "Incorrect password: hash mismatch"@,
            self.language is Russian ==> r@ == "–ù–µ–≤–µ—Ä–Ω—ã–π –ø–∞—Ä–æ–ª—å: –Ω–µ—Å–æ–æ—Ç–≤–µ—Ç—Å—Ç–≤–∏–µ —Ö—ç—à–∞"@,
    {
        match self.language {
            Language::English => "Incorrect password: hash mismatch".to_owned(),
            Language::Russian => "–ù–µ–≤–µ—Ä–Ω—ã–π –ø–∞—Ä–æ–ª—å: –Ω–µ—Å–æ–æ—Ç–≤–µ—Ç—Å—Ç–≤–∏–µ —Ö—ç—à–∞".to_owned(),
        }
    }

    pub fn servers(&self) -> (r: String)
        ensures
            self.language is English ==> r@ == "Servers"@,
            self.language is Russian ==> r@ == "–°–µ—Ä–≤–µ—Ä—ã"@,
    {
        match self.language {
            Language::English => "Servers".to_owned(),
            Language::Russian => "–°–µ—Ä–≤–µ—Ä—ã".to_owned(),
        }
    }

    pub fn databases(&self) -> (r: String)
        ensures
            self.language is English ==> r@ == "Databases"@,
            self.language is Russian ==> r@ == "–ë–∞–∑—ã –¥–∞–Ω–Ω—ã—Ö"@,
    {
        match self.language {
            Language::English => "Databases".to_owned(),
            Language::Russian => "–ë–∞–∑—ã –¥–∞–Ω–Ω—ã—Ö".to_owned(),
        }
    }

    pub fn tables(&self) -> (r: String)
        ensures
            self.language is English ==> r@ == "Tables"@,
            self.language is Russian ==> r@ == "–¢–∞–±–ª–∏—Ü—ã"@,
    {
        match self.language {
            Language::English => "Tables".to_owned(),
            Language::Russian => "–¢–∞–±–ª–∏—Ü—ã".to_owned(),
        }
    }

    pub fn scripts(&self) -> (r: String)
        ensures
            self.language is English ==> r@ == "Scripts"@,
            self.language is Russian ==> r@ == "–°–∫—Ä–∏–ø—Ç—ã"@,
    {
        match self.language {
            Language::English => "Scripts".to_owned(),
            Language::Russian => "–°–∫—Ä–∏–ø—Ç—ã".to_owned(),
        }
    }

    pub fn get_columns(&self) -> (r: String)
        ensures
            self.language is English ==> r@ == "Get columns"@,
            self.language is Russian ==> r@ == "–ü–æ–ª—É—á–∏—Ç—å —Å—Ç–æ–ª–±—Ü—ã"@,
    {
        match self.language {
            Language::English => "Get columns".to_owned(),
            Language::Russian => "–ü–æ–ª—É—á–∏—Ç—å —Å—Ç–æ–ª–±—Ü—ã".to_owned(),
        }
    }

    pub fn delete(&self) -> (r: String)
        ensures
            self.language is English ==> r@ == "Delete"@,
            self.language is Russian ==> r@ == "–£–¥–∞–ª–∏—Ç—å"@,
    {
        match self.language {
            Language::English => "Delete".to_owned(),
            Language::Russian => "–£–¥–∞–ª–∏—Ç—å".to_owned(),
        }
    }

    pub fn edit(&self) -> (r: String)
        ensures
            self.language is English ==> r@ == "Edit"@,
            self.language is Russian ==> r@ == "–†–µ–¥–∞–∫—Ç–∏—Ä–æ–≤–∞—Ç—å"@,
    {
        match self.language {
            Language::English => "Edit".to_owned(),
            Language::Russian => "–†–µ–¥–∞–∫—Ç–∏—Ä–æ–≤–∞—Ç—å".to_owned(),
        }
    }

    pub fn reload(&self) -> (r: String)
        ensures
            self.language is English ==> r@ == "Reload"@,
            self.language is Russian ==> r@ == "–ü–µ—Ä–µ–∑–∞–≥—Ä—É–∑–∏—Ç—å"@,
    {
        match self.language {
            Language::English => "Reload".to_owned(),
            Language::Russian => "–ü–µ—Ä–µ–∑–∞–≥—Ä—É–∑–∏—Ç—å".to_owned(),
        }
    }

    pub fn change_password(&self) -> (r: String)
        ensures
            self.language is English ==> r@ == "Change password"@,
            self.language is Russian ==> r@ == "–°–º–µ–Ω–∏—Ç—å –ø–∞—Ä–æ–ª—å"@,
    {
        match self.language {
            Language::English => "Change password".to_owned(),
            Language::Russian => "–°–º–µ–Ω–∏—Ç—å –ø–∞—Ä–æ–ª—å".to_owned(),
        }
    }

    pub fn old_password(&self) -> (r: String)
        ensures
            self.language is English ==> r@ == "Old password"@,
            self.language is Russian ==> r@ == "–°—Ç–∞—Ä—ã–π –ø–∞—Ä–æ–ª—å"@,
    {
        match self.language {
            Language::English => "Old password".to_owned(),
            Language::Russian => "–°—Ç–∞—Ä—ã–π –ø–∞—Ä–æ–ª—å".to_owned(),
        }
    }

    pub fn new_password(&self) -> (r: String)
        ensures
            self.language is English ==> r@ == "New password"@,
            self.language is Russian ==> r@ == "–ù–æ–≤—ã–π –ø–∞—Ä–æ–ª—å"@,
    {
        match self.language {
            Language::English => "New password".to_owned(),
            Language::Russian => "–ù–æ–≤—ã–π –ø–∞—Ä–æ–ª—å".to_owned(),
        }
    }

    pub fn confirm_password(&self) -> (r: String)
        ensures
            self.language is English ==> r@ == "Confirm password"@,
            self.language is Russian ==> r@ == "–ü–æ–¥—Ç–≤–µ—Ä–¥–∏—Ç–µ –ø–∞—Ä–æ–ª—å"@,
    {
        match self.language {
            Language::English => "Confirm password".to_owned(),
            Language::Russian => "–ü–æ–¥—Ç–≤–µ—Ä–¥–∏—Ç–µ –ø–∞—Ä–æ–ª—å".to_owned(),
        }
    }

    pub fn passwords_do_not_match(&self) -> (r: String)
        ensures
            self.language is English ==> r@ == "Passwords do not match"@,
            self.language is Russian ==> r@ == "–ü–∞—Ä–æ–ª–∏ –Ω–µ —Å–æ–≤–ø–∞–¥–∞—é—Ç"@,
    {
        match self.language {
            Language::English => "Passwords do not match".to_owned(),
            Language::Russian => "–ü–∞—Ä–æ–ª–∏ –Ω–µ —Å–æ–≤–ø–∞–¥–∞—é—Ç".to_owned(),
        }
    }

    pub fn openai_model(&self) -> (r: String)
        ensures
            self.language is English ==> r@ == "OpenAI model"@,
            self.language is Russian ==> r@ == "OpenAI –º–æ–¥–µ–ª—å"@,
    {
        match self.language {
            Language::English => "OpenAI model".to_owned(),
            Language::Russian => "OpenAI –º–æ–¥–µ–ª—å".to_owned(),
        }
    }

    pub fn openai_base_url(&self) -> (r: String)
        ensures
            self.language is English ==> r@ == "OpenAI base URL"@,
            self.language is Russian ==> r@ == "–ë–∞–∑–æ–≤—ã–π –ø—É—Ç—å OpenAI"@,
    {
        match self.language {
            Language::English => "OpenAI base URL".to_owned(),
            Language::Russian => "–ë–∞–∑–æ–≤—ã–π –ø—É—Ç—å OpenAI".to_owned(),
        }
    }

    pub fn openai_token(&self) -> (r: String)
        ensures
            self.language is English ==> r@ == "OpenAI token"@,
            self.language is Russian ==> r@ == "OpenAI —Ç–æ–∫–µ–Ω"@,
    {
        match self.language {
            Language::English => "OpenAI token".to_owned(),
            Language::Russian => "OpenAI —Ç–æ–∫–µ–Ω".to_owned(),
        }
    }

    pub fn generate(&self) -> (r: String)
        ensures
            self.language is English ==> r@ == "Generate (Ctrl+i)"@,
            self.language is Russian ==> r@ == "–°–≥–µ–Ω–µ—Ä–∏—Ä–æ–≤–∞—Ç—å (Ctrl+i)"@,
    {
        match self.language {
            Language::English => "Generate (Ctrl+i)".to_owned(),
            Language::Russian => "–°–≥–µ–Ω–µ—Ä–∏—Ä–æ–≤–∞—Ç—å (Ctrl+i)".to_owned(),
        }
    }

    pub fn generate_sql(&self) -> (r: String)
        ensures
            self.language is English ==> r@ == "Generate SQL"@,
            self.language is Russian ==> r@ == "–°–≥–µ–Ω–µ—Ä–∏—Ä–æ–≤–∞—Ç—å SQL"@,
    {
        match self.language {
            Language::English => "Generate SQL".to_owned(),
            Language::Russian => "–°–≥–µ–Ω–µ—Ä–∏—Ä–æ–≤–∞—Ç—å SQL".to_owned(),
        }
    }

    pub fn generate_hint(&self) -> (r: String)
        ensures
            self.language is English ==> r@ == "Write a script that will retrieve the first 150 rows using the following regex for the `log` column: Version: `\\d+\\.\\d+\\.\\d+.`"@,
            self.language is Russian ==> r@ == "–ù–∞–ø–∏—à–∏ —Å–∫—Ä–∏–ø—Ç, –∫–æ—Ç–æ—Ä—ã–π –±—É–¥–µ—Ç –ø–æ–ª—É—á–∞—Ç—å –ø–µ—Ä–≤—ã–µ 150 —Å—Ç—Ä–æ–∫ —Å –∏—Å–ø–æ–ª—å–∑–æ–≤–∞–Ω–∏–µ–º —Å–ª–µ–¥—É—é—â–µ–π —Ä–µ–≥—É–ª—è—Ä–∫–∏ –¥–ª—è –∫–æ–ª–æ–Ω–∫–∏ `log`: `Version: \\d+\\.\\d+\\.\\d+`."@,
    {
        match self.language {
            Language::English => "Write a script that will retrieve the first 150 rows using the following regex for the `log` column: Version: `\\d+\\.\\d+\\.\\d+.`".to_owned(),
            Language::Russian => "–ù–∞–ø–∏—à–∏ —Å–∫—Ä–∏–ø—Ç, –∫–æ—Ç–æ—Ä—ã–π –±—É–¥–µ—Ç –ø–æ–ª—É—á–∞—Ç—å –ø–µ—Ä–≤—ã–µ 150 —Å—Ç—Ä–æ–∫ —Å –∏—Å–ø–æ–ª—å–∑–æ–≤–∞–Ω–∏–µ–º —Å–ª–µ–¥—É—é—â–µ–π —Ä–µ–≥—É–ª—è—Ä–∫–∏ –¥–ª—è –∫–æ–ª–æ–Ω–∫–∏ `log`: `Version: \\d+\\.\\d+\\.\\d+`.".to_owned(),
        }
    }

    pub fn version(&self, version: &str) -> (r: String)
        ensures
            self.language is English ==> r@ == "Version "@ + version@,
            self.language is Russian ==> r@ == "–í–µ—Ä—Å–∏—è "@ + version@,
    {
        let mut r = match self.language {
            Language::English => String::from_str("Version "),
            Language::Russian => String::from_str("–í–µ—Ä—Å–∏—è "),
        };
        r.append(version);
        r
    }

    pub fn time(&self, time: u64) -> (r: String)
        ensures
            self.language is English ==> r@ == "Time: "@ + dec_digits(time as nat) + " ms"@,
            self.language is Russian ==> r@ == "–í—Ä–µ–º—è: "@ + dec_digits(time as nat) + " ms"@,
    {
        let mut r = match self.language {
            Language::English => String::from_str("Time: "),
            Language::Russian => String::from_str("–í—Ä–µ–º—è: "),
        };
        let n = crate::text::u64_to_string(time);
        r.append(n.as_str());
        r.append(" ms");
        r
    }

    pub fn rows(&self, rows: u32) -> (r: String)
        ensures
            self.language is English ==> r@ == "Rows: "@ + dec_digits(rows as nat),
            self.language is Russian ==> r@ == "–°—Ç—Ä–æ–∫–∏: "@ + dec_digits(rows as nat),
    {
        let mut r = match self.language {
            Language::English => String::from_str("Rows: "),
            Language::Russian => String::from_str("–°—Ç—Ä–æ–∫–∏: "),
        };
        let n = crate::text::u32_to_string(rows);
        r.append(n.as_str());
        r
    }

}

} // verus!
