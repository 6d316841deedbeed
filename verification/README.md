# linked_chat_bot

An assistant that answers recruiters on LinkedIn: it reads unread
conversations, asks an OpenAI model for a reply, sends it (or only shows it
in a dry run), records job opportunities and exports interviews to Google
Calendar.

The decisions and text handling are a library verified with Verus:

- `src/text.rs`: white space, trimming, searching, removing and joining text.
- `src/json.rs`: JSON values as plain data, parsed by `serde_json`.
- `src/ai/`: the system prompt, the user message built from a conversation
  and a profile, the scanner for fenced `json` blocks in a reply, and the
  reading of interview and job details out of them.
- `src/time.rs`: instants in UTC, dates and times of day, and the calls into
  `chrono` that read the clock, parse and format.
- `src/linkedin/`: conversations, messages, profiles, job opportunities and
  what is read out of LinkedIn pages; the login decisions of a session.
- `src/config.rs`: configuration and its reading from environment values.
- `src/calendar/`: interview events and what the calendar answers.
- `src/bot.rs`: which conversations a round handles, what is done with a
  reply, and how an interview becomes a calendar event.
- `src/laws.rs`: properties that span several functions, proved.

`app/` holds the program around the library: the command line, the browser
session, the OpenAI and Google Calendar clients, and the main loop.
